//! The attachment entity and its repository.

use vstd::prelude::*;
use crate::entity::Entity;
use crate::entity::channel::message::MessageEntity;
use crate::id::{AttachmentId, GuildId, MessageId};
use crate::model::channel::Attachment;
use crate::repository::Repository;
use crate::utils::relation_map;

verus! {

/// A file attached to a message, with the id of that message.
#[derive(Clone, Debug, PartialEq, Eq)]
pub struct AttachmentEntity {
    pub filename: String,
    pub height: Option<u64>,
    pub id: AttachmentId,
    pub message_id: MessageId,
    pub proxy_url: String,
    pub size: u64,
    pub url: String,
    pub width: Option<u64>,
}

impl AttachmentEntity {
    /// The entity that [`AttachmentEntity::from`] makes.
    pub open spec fn spec_from(pair: (MessageId, Attachment)) -> AttachmentEntity {
        AttachmentEntity {
            filename: pair.1.filename,
            height: pair.1.height,
            id: pair.1.id,
            message_id: pair.0,
            proxy_url: pair.1.proxy_url,
            size: pair.1.size,
            url: pair.1.url,
            width: pair.1.width,
        }
    }

    /// Make the entity of an attachment of the message of the given id.
    pub fn from(pair: (MessageId, Attachment)) -> (entity: AttachmentEntity)
        ensures
            entity == Self::spec_from(pair),
    {
        AttachmentEntity {
            filename: pair.1.filename,
            height: pair.1.height,
            id: pair.1.id,
            message_id: pair.0,
            proxy_url: pair.1.proxy_url,
            size: pair.1.size,
            url: pair.1.url,
            width: pair.1.width,
        }
    }
}

impl Entity for AttachmentEntity {
    type Id = AttachmentId;

    open spec fn spec_id(&self) -> AttachmentId {
        self.id
    }

    open spec fn spec_scope(&self) -> Option<GuildId> {
        None
    }

    /// Return the attachment's ID.
    fn id(&self) -> (id: AttachmentId) {
        self.id
    }

    fn scope(&self) -> (guild_id: Option<GuildId>) {
        None
    }
}

/// The ids of attachments, in their order.
pub open spec fn attachment_ids_of(attachments: Seq<Attachment>) -> Seq<AttachmentId> {
    attachments.map_values(|attachment: Attachment| attachment.id)
}

/// The entities of the attachments of one message, in their order.
pub open spec fn attachment_entities_of(message_id: MessageId, attachments: Seq<Attachment>) -> Seq<
    AttachmentEntity,
> {
    attachments.map_values(|attachment: Attachment| AttachmentEntity::spec_from((message_id, attachment)))
}

/// Collect the ids of attachments.
pub fn attachment_ids(attachments: &Vec<Attachment>) -> (ids: Vec<AttachmentId>)
    ensures
        ids@ == attachment_ids_of(attachments@),
{
    let mut ids: Vec<AttachmentId> = Vec::new();
    let mut i: usize = 0;
    while i < attachments.len()
        invariant
            i <= attachments.len(),
            ids@ == attachment_ids_of(attachments@.take(i as int)),
        decreases attachments.len() - i,
    {
        ids.push(attachments[i].id);
        proof {
            assert(attachments@.take(i + 1) =~= attachments@.take(i as int).push(attachments@[i as int]));
            assert(ids@ =~= attachment_ids_of(attachments@.take(i + 1)));
        }
        i += 1;
    }
    proof {
        assert(attachments@.take(attachments.len() as int) =~= attachments@);
    }
    ids
}

/// Make the entities of the attachments of the message of the given id.
pub fn attachment_entities(message_id: MessageId, attachments: Vec<Attachment>) -> (entities: Vec<
    AttachmentEntity,
>)
    ensures
        entities@ == attachment_entities_of(message_id, attachments@),
{
    let mut entities: Vec<AttachmentEntity> = Vec::new();
    for attachment in it: attachments.into_iter()
        invariant
            it.seq() == attachments@,
            entities@ == attachment_entities_of(message_id, attachments@.take(it.index() as int)),
    {
        let ghost n = entities@.len() as int;
        entities.push(AttachmentEntity::from((message_id, attachment)));
        proof {
            assert(attachments@.take(n + 1) =~= attachments@.take(n).push(attachments@[n]));
            assert(entities@ =~= attachment_entities_of(message_id, attachments@.take(n + 1)));
        }
    }
    proof {
        assert(attachments@.take(attachments@.len() as int) =~= attachments@);
    }
    entities
}

/// Repository to work with attachments and their associated entities.
pub trait AttachmentRepository<Error>: Repository<AttachmentEntity, Error> {
    /// Retrieve the message of an attachment.
    fn message<R: Repository<MessageEntity, Error>>(
        &self,
        messages: &R,
        attachment_id: AttachmentId,
    ) -> (found: Result<Option<MessageEntity>, Error>)
        requires
            self.wf(),
            messages.wf(),
        ensures
            Self::reliable() && R::reliable() ==> found is Ok,
            found matches Ok(entity) ==> entity == (match self.entries().get(attachment_id) {
                Some(local) => messages.entries().get(local.message_id),
                None => None,
            }),
    {
        let foreign_id = |local: AttachmentEntity| -> (id: MessageId)
            ensures
                id == local.message_id,
        {
            local.message_id
        };
        relation_map(self, messages, attachment_id, foreign_id)
    }
}

} // verus!
