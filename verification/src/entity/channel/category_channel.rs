//! The category channel entity and its repository.

use vstd::prelude::*;
use crate::entity::Entity;
use crate::entity::guild::GuildEntity;
use crate::id::{ChannelId, GuildId};
use crate::model::channel::CategoryChannel;
use crate::repository::Repository;
use crate::utils::relation_and_then;
use twilight_model::channel::ChannelType;
use twilight_model::channel::permission_overwrite::PermissionOverwrite;

verus! {

/// A category of channels of a guild.
#[derive(Clone, Debug, PartialEq, Eq)]
pub struct CategoryChannelEntity {
    pub guild_id: Option<GuildId>,
    pub id: ChannelId,
    pub kind: ChannelType,
    pub name: String,
    pub permission_overwrites: Vec<PermissionOverwrite>,
    pub position: i64,
}

impl CategoryChannelEntity {
    /// The entity that [`CategoryChannelEntity::from`] makes.
    pub open spec fn spec_from(channel: CategoryChannel) -> CategoryChannelEntity {
        CategoryChannelEntity {
            guild_id: channel.guild_id,
            id: channel.id,
            kind: channel.kind,
            name: channel.name,
            permission_overwrites: channel.permission_overwrites,
            position: channel.position,
        }
    }

    /// Make the entity of a category channel.
    pub fn from(channel: CategoryChannel) -> (entity: CategoryChannelEntity)
        ensures
            entity == Self::spec_from(channel),
    {
        CategoryChannelEntity {
            guild_id: channel.guild_id,
            id: channel.id,
            kind: channel.kind,
            name: channel.name,
            permission_overwrites: channel.permission_overwrites,
            position: channel.position,
        }
    }
}

impl Entity for CategoryChannelEntity {
    type Id = ChannelId;

    open spec fn spec_id(&self) -> ChannelId {
        self.id
    }

    open spec fn spec_scope(&self) -> Option<GuildId> {
        self.guild_id
    }

    /// Return the category channel's ID.
    fn id(&self) -> (id: ChannelId) {
        self.id
    }

    fn scope(&self) -> (guild_id: Option<GuildId>) {
        self.guild_id
    }
}

/// Repository to work with guild category channels and their associated
/// entities.
pub trait CategoryChannelRepository<Error>: Repository<CategoryChannelEntity, Error> {
    /// Retrieve the guild associated with a guild category channel.
    fn guild<R: Repository<GuildEntity, Error>>(
        &self,
        guilds: &R,
        channel_id: ChannelId,
    ) -> (found: Result<Option<GuildEntity>, Error>)
        requires
            self.wf(),
            guilds.wf(),
        ensures
            Self::reliable() && R::reliable() ==> found is Ok,
            found matches Ok(entity) ==> entity == (match self.entries().get(channel_id) {
                Some(local) => match local.guild_id {
                    Some(foreign_id) => guilds.entries().get(foreign_id),
                    None => None,
                },
                None => None,
            }),
    {
        let foreign_id = |local: CategoryChannelEntity| -> (id: Option<GuildId>)
            ensures
                id == local.guild_id,
        {
            local.guild_id
        };
        relation_and_then(self, guilds, channel_id, foreign_id)
    }
}

} // verus!
