//! The group entity and its repository.

use vstd::prelude::*;
use crate::entity::Entity;
use crate::entity::channel::message::MessageEntity;
use crate::entity::user::{user_entities, user_entities_of, user_ids, user_ids_of, UserEntity};
use crate::id::{ApplicationId, ChannelId, GuildId, MessageId, UserId};
use crate::model::channel::Group;
use crate::repository::Repository;
use crate::utils::{is_resolution, relation_and_then, relation_map, stream};
use twilight_model::channel::ChannelType;

verus! {

/// A group of users outside any guild, with the ids of its recipients.
#[derive(Clone, Debug, PartialEq, Eq)]
pub struct GroupEntity {
    pub application_id: Option<ApplicationId>,
    pub icon: Option<String>,
    pub id: ChannelId,
    pub kind: ChannelType,
    pub last_message_id: Option<MessageId>,
    pub last_pin_timestamp: Option<String>,
    pub name: Option<String>,
    pub owner_id: UserId,
    pub recipient_ids: Vec<UserId>,
}

impl GroupEntity {
    /// Whether the entity is the one made from `group`: the fields of the
    /// group, with the ids of the recipients in place of the recipients.
    pub open spec fn is_from(self, group: Group) -> bool {
        &&& self.application_id == group.application_id
        &&& self.icon == group.icon
        &&& self.id == group.id
        &&& self.kind == group.kind
        &&& self.last_message_id == group.last_message_id
        &&& self.last_pin_timestamp == group.last_pin_timestamp
        &&& self.name == group.name
        &&& self.owner_id == group.owner_id
        &&& self.recipient_ids@ == user_ids_of(group.recipients@)
    }

    /// Make the entity of a group, and the entities of its recipients.
    pub fn with_users(group: Group) -> (made: (GroupEntity, Vec<UserEntity>))
        ensures
            made.0.is_from(group),
            made.1@ == user_entities_of(group.recipients@),
    {
        let recipient_ids = user_ids(&group.recipients);
        let entity = GroupEntity {
            application_id: group.application_id,
            icon: group.icon,
            id: group.id,
            kind: group.kind,
            last_message_id: group.last_message_id,
            last_pin_timestamp: group.last_pin_timestamp,
            name: group.name,
            owner_id: group.owner_id,
            recipient_ids,
        };
        (entity, user_entities(group.recipients))
    }

    /// Make the entity of a group.
    pub fn from(group: Group) -> (entity: GroupEntity)
        ensures
            entity.is_from(group),
    {
        Self::with_users(group).0
    }
}

impl Entity for GroupEntity {
    type Id = ChannelId;

    open spec fn spec_id(&self) -> ChannelId {
        self.id
    }

    open spec fn spec_scope(&self) -> Option<GuildId> {
        None
    }

    /// Return the group's ID.
    fn id(&self) -> (id: ChannelId) {
        self.id
    }

    fn scope(&self) -> (guild_id: Option<GuildId>) {
        None
    }
}

/// Repository to work with groups and their associated entities.
pub trait GroupRepository<Error>: Repository<GroupEntity, Error> {
    /// Retrieve the last message of a group.
    fn last_message<R: Repository<MessageEntity, Error>>(
        &self,
        messages: &R,
        group_id: ChannelId,
    ) -> (found: Result<Option<MessageEntity>, Error>)
        requires
            self.wf(),
            messages.wf(),
        ensures
            Self::reliable() && R::reliable() ==> found is Ok,
            found matches Ok(entity) ==> entity == (match self.entries().get(group_id) {
                Some(local) => match local.last_message_id {
                    Some(foreign_id) => messages.entries().get(foreign_id),
                    None => None,
                },
                None => None,
            }),
    {
        let foreign_id = |local: GroupEntity| -> (id: Option<MessageId>)
            ensures
                id == local.last_message_id,
        {
            local.last_message_id
        };
        relation_and_then(self, messages, group_id, foreign_id)
    }

    /// Retrieve the owner of a group.
    fn owner<R: Repository<UserEntity, Error>>(
        &self,
        users: &R,
        group_id: ChannelId,
    ) -> (found: Result<Option<UserEntity>, Error>)
        requires
            self.wf(),
            users.wf(),
        ensures
            Self::reliable() && R::reliable() ==> found is Ok,
            found matches Ok(entity) ==> entity == (match self.entries().get(group_id) {
                Some(local) => users.entries().get(local.owner_id),
                None => None,
            }),
    {
        let foreign_id = |local: GroupEntity| -> (id: UserId)
            ensures
                id == local.owner_id,
        {
            local.owner_id
        };
        relation_map(self, users, group_id, foreign_id)
    }

    /// Retrieve the recipients associated with a group.
    fn recipients<R: Repository<UserEntity, Error>>(
        &self,
        users: &R,
        group_id: ChannelId,
    ) -> (found: Result<Vec<Result<UserEntity, Error>>, Error>)
        requires
            self.wf(),
            users.wf(),
        ensures
            Self::reliable() ==> found is Ok,
            found matches Ok(list) ==> {
                &&& match self.entries().get(group_id) {
                    Some(local) => is_resolution(users.entries(), local.recipient_ids@, list@),
                    None => list@.len() == 0,
                }
                &&& R::reliable() ==> forall|i: int| 0 <= i < list@.len() ==> #[trigger] list@[i] is Ok
            },
    {
        let foreign_ids = |local: GroupEntity| -> (ids: Vec<UserId>)
            ensures
                ids == local.recipient_ids,
        {
            local.recipient_ids
        };
        stream(self, users, group_id, foreign_ids)
    }
}

} // verus!
