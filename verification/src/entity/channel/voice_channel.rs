//! The voice channel entity and its repository.

use vstd::prelude::*;
use crate::entity::Entity;
use crate::entity::channel::category_channel::CategoryChannelEntity;
use crate::entity::guild::GuildEntity;
use crate::id::{ChannelId, GuildId};
use crate::model::channel::VoiceChannel;
use crate::repository::Repository;
use crate::utils::relation_and_then;
use twilight_model::channel::ChannelType;
use twilight_model::channel::permission_overwrite::PermissionOverwrite;

verus! {

/// A voice channel of a guild.
#[derive(Clone, Debug, PartialEq, Eq)]
pub struct VoiceChannelEntity {
    pub bitrate: u64,
    pub guild_id: Option<GuildId>,
    pub id: ChannelId,
    pub kind: ChannelType,
    pub name: String,
    pub permission_overwrites: Vec<PermissionOverwrite>,
    pub parent_id: Option<ChannelId>,
    pub position: i64,
    pub user_limit: Option<u64>,
}

impl VoiceChannelEntity {
    /// The entity that [`VoiceChannelEntity::from`] makes.
    pub open spec fn spec_from(channel: VoiceChannel) -> VoiceChannelEntity {
        VoiceChannelEntity {
            bitrate: channel.bitrate,
            guild_id: channel.guild_id,
            id: channel.id,
            kind: channel.kind,
            name: channel.name,
            permission_overwrites: channel.permission_overwrites,
            parent_id: channel.parent_id,
            position: channel.position,
            user_limit: channel.user_limit,
        }
    }

    /// Make the entity of a voice channel.
    pub fn from(channel: VoiceChannel) -> (entity: VoiceChannelEntity)
        ensures
            entity == Self::spec_from(channel),
    {
        VoiceChannelEntity {
            bitrate: channel.bitrate,
            guild_id: channel.guild_id,
            id: channel.id,
            kind: channel.kind,
            name: channel.name,
            permission_overwrites: channel.permission_overwrites,
            parent_id: channel.parent_id,
            position: channel.position,
            user_limit: channel.user_limit,
        }
    }
}

impl Entity for VoiceChannelEntity {
    type Id = ChannelId;

    open spec fn spec_id(&self) -> ChannelId {
        self.id
    }

    open spec fn spec_scope(&self) -> Option<GuildId> {
        self.guild_id
    }

    /// Return the voice channel's ID.
    fn id(&self) -> (id: ChannelId) {
        self.id
    }

    fn scope(&self) -> (guild_id: Option<GuildId>) {
        self.guild_id
    }
}

/// Repository to work with guild voice channels and their associated entities.
pub trait VoiceChannelRepository<Error>: Repository<VoiceChannelEntity, Error> {
    /// Retrieve the guild associated with a guild voice channel.
    fn guild<R: Repository<GuildEntity, Error>>(
        &self,
        guilds: &R,
        channel_id: ChannelId,
    ) -> (found: Result<Option<GuildEntity>, Error>)
        requires
            self.wf(),
            guilds.wf(),
        ensures
            Self::reliable() && R::reliable() ==> found is Ok,
            found matches Ok(entity) ==> entity == (match self.entries().get(channel_id) {
                Some(local) => match local.guild_id {
                    Some(foreign_id) => guilds.entries().get(foreign_id),
                    None => None,
                },
                None => None,
            }),
    {
        let foreign_id = |local: VoiceChannelEntity| -> (id: Option<GuildId>)
            ensures
                id == local.guild_id,
        {
            local.guild_id
        };
        relation_and_then(self, guilds, channel_id, foreign_id)
    }

    /// Retrieve the parent category channel of the voice channel.
    fn parent<R: Repository<CategoryChannelEntity, Error>>(
        &self,
        category_channels: &R,
        channel_id: ChannelId,
    ) -> (found: Result<Option<CategoryChannelEntity>, Error>)
        requires
            self.wf(),
            category_channels.wf(),
        ensures
            Self::reliable() && R::reliable() ==> found is Ok,
            found matches Ok(entity) ==> entity == (match self.entries().get(channel_id) {
                Some(local) => match local.parent_id {
                    Some(foreign_id) => category_channels.entries().get(foreign_id),
                    None => None,
                },
                None => None,
            }),
    {
        let foreign_id = |local: VoiceChannelEntity| -> (id: Option<ChannelId>)
            ensures
                id == local.parent_id,
        {
            local.parent_id
        };
        relation_and_then(self, category_channels, channel_id, foreign_id)
    }
}

} // verus!
