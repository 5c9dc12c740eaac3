//! The text channel entity and its repository.

use vstd::prelude::*;
use crate::entity::Entity;
use crate::entity::channel::category_channel::CategoryChannelEntity;
use crate::entity::channel::message::MessageEntity;
use crate::entity::guild::GuildEntity;
use crate::id::{ChannelId, GuildId, MessageId};
use crate::model::channel::TextChannel;
use crate::repository::Repository;
use crate::utils::relation_and_then;
use twilight_model::channel::ChannelType;
use twilight_model::channel::permission_overwrite::PermissionOverwrite;

verus! {

/// A text channel of a guild.
#[derive(Clone, Debug, PartialEq, Eq)]
pub struct TextChannelEntity {
    pub guild_id: Option<GuildId>,
    pub id: ChannelId,
    pub kind: ChannelType,
    pub last_message_id: Option<MessageId>,
    pub last_pin_timestamp: Option<String>,
    pub name: String,
    pub nsfw: bool,
    pub permission_overwrites: Vec<PermissionOverwrite>,
    pub parent_id: Option<ChannelId>,
    pub position: i64,
    pub rate_limit_per_user: Option<u64>,
    pub topic: Option<String>,
}

impl TextChannelEntity {
    /// The entity that [`TextChannelEntity::from`] makes.
    pub open spec fn spec_from(channel: TextChannel) -> TextChannelEntity {
        TextChannelEntity {
            guild_id: channel.guild_id,
            id: channel.id,
            kind: channel.kind,
            last_message_id: channel.last_message_id,
            last_pin_timestamp: channel.last_pin_timestamp,
            name: channel.name,
            nsfw: channel.nsfw,
            permission_overwrites: channel.permission_overwrites,
            parent_id: channel.parent_id,
            position: channel.position,
            rate_limit_per_user: channel.rate_limit_per_user,
            topic: channel.topic,
        }
    }

    /// Make the entity of a text channel.
    pub fn from(channel: TextChannel) -> (entity: TextChannelEntity)
        ensures
            entity == Self::spec_from(channel),
    {
        TextChannelEntity {
            guild_id: channel.guild_id,
            id: channel.id,
            kind: channel.kind,
            last_message_id: channel.last_message_id,
            last_pin_timestamp: channel.last_pin_timestamp,
            name: channel.name,
            nsfw: channel.nsfw,
            permission_overwrites: channel.permission_overwrites,
            parent_id: channel.parent_id,
            position: channel.position,
            rate_limit_per_user: channel.rate_limit_per_user,
            topic: channel.topic,
        }
    }
}

impl Entity for TextChannelEntity {
    type Id = ChannelId;

    open spec fn spec_id(&self) -> ChannelId {
        self.id
    }

    open spec fn spec_scope(&self) -> Option<GuildId> {
        self.guild_id
    }

    /// Return the text channel's ID.
    fn id(&self) -> (id: ChannelId) {
        self.id
    }

    fn scope(&self) -> (guild_id: Option<GuildId>) {
        self.guild_id
    }
}

/// Repository to work with guild text channels and their associated entities.
pub trait TextChannelRepository<Error>: Repository<TextChannelEntity, Error> {
    /// Retrieve the guild associated with a guild text channel.
    fn guild<R: Repository<GuildEntity, Error>>(
        &self,
        guilds: &R,
        channel_id: ChannelId,
    ) -> (found: Result<Option<GuildEntity>, Error>)
        requires
            self.wf(),
            guilds.wf(),
        ensures
            Self::reliable() && R::reliable() ==> found is Ok,
            found matches Ok(entity) ==> entity == (match self.entries().get(channel_id) {
                Some(local) => match local.guild_id {
                    Some(foreign_id) => guilds.entries().get(foreign_id),
                    None => None,
                },
                None => None,
            }),
    {
        let foreign_id = |local: TextChannelEntity| -> (id: Option<GuildId>)
            ensures
                id == local.guild_id,
        {
            local.guild_id
        };
        relation_and_then(self, guilds, channel_id, foreign_id)
    }

    /// Retrieve the last message of a text channel.
    fn last_message<R: Repository<MessageEntity, Error>>(
        &self,
        messages: &R,
        channel_id: ChannelId,
    ) -> (found: Result<Option<MessageEntity>, Error>)
        requires
            self.wf(),
            messages.wf(),
        ensures
            Self::reliable() && R::reliable() ==> found is Ok,
            found matches Ok(entity) ==> entity == (match self.entries().get(channel_id) {
                Some(local) => match local.last_message_id {
                    Some(foreign_id) => messages.entries().get(foreign_id),
                    None => None,
                },
                None => None,
            }),
    {
        let foreign_id = |local: TextChannelEntity| -> (id: Option<MessageId>)
            ensures
                id == local.last_message_id,
        {
            local.last_message_id
        };
        relation_and_then(self, messages, channel_id, foreign_id)
    }

    /// Retrieve the parent category channel of the text channel.
    fn parent<R: Repository<CategoryChannelEntity, Error>>(
        &self,
        category_channels: &R,
        channel_id: ChannelId,
    ) -> (found: Result<Option<CategoryChannelEntity>, Error>)
        requires
            self.wf(),
            category_channels.wf(),
        ensures
            Self::reliable() && R::reliable() ==> found is Ok,
            found matches Ok(entity) ==> entity == (match self.entries().get(channel_id) {
                Some(local) => match local.parent_id {
                    Some(foreign_id) => category_channels.entries().get(foreign_id),
                    None => None,
                },
                None => None,
            }),
    {
        let foreign_id = |local: TextChannelEntity| -> (id: Option<ChannelId>)
            ensures
                id == local.parent_id,
        {
            local.parent_id
        };
        relation_and_then(self, category_channels, channel_id, foreign_id)
    }
}

} // verus!
