//! The private channel entity and its repository.

use vstd::prelude::*;
use crate::entity::Entity;
use crate::entity::channel::message::MessageEntity;
use crate::entity::user::{user_entities, user_entities_of, UserEntity};
use crate::id::{ChannelId, GuildId, MessageId, UserId};
use crate::model::channel::PrivateChannel;
use crate::repository::Repository;
use crate::utils::relation_and_then;
use twilight_model::channel::ChannelType;

verus! {

/// A channel between the current user and one other user, with the id of
/// that user.
#[derive(Clone, Debug, PartialEq, Eq)]
pub struct PrivateChannelEntity {
    pub id: ChannelId,
    pub last_message_id: Option<MessageId>,
    pub last_pin_timestamp: Option<String>,
    pub kind: ChannelType,
    pub recipient_id: Option<UserId>,
}

impl PrivateChannelEntity {
    /// The entity that [`PrivateChannelEntity::from`] makes: the recipient
    /// is the first of the recipients of the channel, if it has any.
    pub open spec fn spec_from(channel: PrivateChannel) -> PrivateChannelEntity {
        PrivateChannelEntity {
            id: channel.id,
            last_message_id: channel.last_message_id,
            last_pin_timestamp: channel.last_pin_timestamp,
            kind: channel.kind,
            recipient_id: if channel.recipients@.len() > 0 {
                Some(channel.recipients@[0].id)
            } else {
                None
            },
        }
    }

    /// Make the entity of a private channel, and the entities of its
    /// recipients.
    pub fn with_users(channel: PrivateChannel) -> (made: (PrivateChannelEntity, Vec<UserEntity>))
        ensures
            made.0 == Self::spec_from(channel),
            made.1@ == user_entities_of(channel.recipients@),
    {
        let recipient_id = if channel.recipients.len() > 0 {
            Some(channel.recipients[0].id)
        } else {
            None
        };
        let entity = PrivateChannelEntity {
            id: channel.id,
            last_message_id: channel.last_message_id,
            last_pin_timestamp: channel.last_pin_timestamp,
            kind: channel.kind,
            recipient_id,
        };
        (entity, user_entities(channel.recipients))
    }

    /// Make the entity of a private channel.
    pub fn from(channel: PrivateChannel) -> (entity: PrivateChannelEntity)
        ensures
            entity == Self::spec_from(channel),
    {
        Self::with_users(channel).0
    }
}

impl Entity for PrivateChannelEntity {
    type Id = ChannelId;

    open spec fn spec_id(&self) -> ChannelId {
        self.id
    }

    open spec fn spec_scope(&self) -> Option<GuildId> {
        None
    }

    /// Return the private channel's ID.
    fn id(&self) -> (id: ChannelId) {
        self.id
    }

    fn scope(&self) -> (guild_id: Option<GuildId>) {
        None
    }
}

/// Repository to work with private channels and their associated entities.
pub trait PrivateChannelRepository<Error>: Repository<PrivateChannelEntity, Error> {
    /// Retrieve the last message of a private channel.
    fn last_message<R: Repository<MessageEntity, Error>>(
        &self,
        messages: &R,
        channel_id: ChannelId,
    ) -> (found: Result<Option<MessageEntity>, Error>)
        requires
            self.wf(),
            messages.wf(),
        ensures
            Self::reliable() && R::reliable() ==> found is Ok,
            found matches Ok(entity) ==> entity == (match self.entries().get(channel_id) {
                Some(local) => match local.last_message_id {
                    Some(foreign_id) => messages.entries().get(foreign_id),
                    None => None,
                },
                None => None,
            }),
    {
        let foreign_id = |local: PrivateChannelEntity| -> (id: Option<MessageId>)
            ensures
                id == local.last_message_id,
        {
            local.last_message_id
        };
        relation_and_then(self, messages, channel_id, foreign_id)
    }

    /// Retrieve the recipient user associated with a private channel.
    fn recipient<R: Repository<UserEntity, Error>>(
        &self,
        users: &R,
        channel_id: ChannelId,
    ) -> (found: Result<Option<UserEntity>, Error>)
        requires
            self.wf(),
            users.wf(),
        ensures
            Self::reliable() && R::reliable() ==> found is Ok,
            found matches Ok(entity) ==> entity == (match self.entries().get(channel_id) {
                Some(local) => match local.recipient_id {
                    Some(foreign_id) => users.entries().get(foreign_id),
                    None => None,
                },
                None => None,
            }),
    {
        let foreign_id = |local: PrivateChannelEntity| -> (id: Option<UserId>)
            ensures
                id == local.recipient_id,
        {
            local.recipient_id
        };
        relation_and_then(self, users, channel_id, foreign_id)
    }
}

} // verus!
