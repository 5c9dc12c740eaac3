//! The role entity and its repository.

use vstd::prelude::*;
use crate::entity::Entity;
use crate::entity::guild::GuildEntity;
use crate::id::{GuildId, RoleId};
use crate::model::guild::Role;
use crate::repository::Repository;
use crate::utils::relation_map;
use twilight_model::guild::Permissions;

verus! {

/// A role of a guild.
#[derive(Clone, Debug, PartialEq, Eq)]
pub struct RoleEntity {
    pub color: u32,
    pub guild_id: GuildId,
    pub hoist: bool,
    pub id: RoleId,
    pub managed: bool,
    pub mentionable: bool,
    pub name: String,
    pub permissions: Permissions,
    pub position: i64,
}

impl RoleEntity {
    /// The entity that [`RoleEntity::from`] makes.
    pub open spec fn spec_from(pair: (Role, GuildId)) -> RoleEntity {
        RoleEntity {
            color: pair.0.color,
            guild_id: pair.1,
            hoist: pair.0.hoist,
            id: pair.0.id,
            managed: pair.0.managed,
            mentionable: pair.0.mentionable,
            name: pair.0.name,
            permissions: pair.0.permissions,
            position: pair.0.position,
        }
    }

    /// Make the entity of a role of the given guild.
    pub fn from(pair: (Role, GuildId)) -> (entity: RoleEntity)
        ensures
            entity == Self::spec_from(pair),
    {
        RoleEntity {
            color: pair.0.color,
            guild_id: pair.1,
            hoist: pair.0.hoist,
            id: pair.0.id,
            managed: pair.0.managed,
            mentionable: pair.0.mentionable,
            name: pair.0.name,
            permissions: pair.0.permissions,
            position: pair.0.position,
        }
    }
}

impl Entity for RoleEntity {
    type Id = RoleId;

    open spec fn spec_id(&self) -> RoleId {
        self.id
    }

    open spec fn spec_scope(&self) -> Option<GuildId> {
        Some(self.guild_id)
    }

    /// Return the role's ID.
    fn id(&self) -> (id: RoleId) {
        self.id
    }

    fn scope(&self) -> (guild_id: Option<GuildId>) {
        Some(self.guild_id)
    }
}

/// Repository to work with roles and their associated entities.
pub trait RoleRepository<Error>: Repository<RoleEntity, Error> {
    /// Retrieve the guild associated with a role.
    fn guild<R: Repository<GuildEntity, Error>>(
        &self,
        guilds: &R,
        role_id: RoleId,
    ) -> (found: Result<Option<GuildEntity>, Error>)
        requires
            self.wf(),
            guilds.wf(),
        ensures
            Self::reliable() && R::reliable() ==> found is Ok,
            found matches Ok(entity) ==> entity == (match self.entries().get(role_id) {
                Some(local) => guilds.entries().get(local.guild_id),
                None => None,
            }),
    {
        let foreign_id = |local: RoleEntity| -> (id: GuildId)
            ensures
                id == local.guild_id,
        {
            local.guild_id
        };
        relation_map(self, guilds, role_id, foreign_id)
    }
}

/// The entities of the roles of a guild, in their order.
pub open spec fn role_entities_of(guild_id: GuildId, roles: Seq<Role>) -> Seq<RoleEntity> {
    roles.map_values(|role: Role| RoleEntity::spec_from((role, guild_id)))
}

/// Make the entities of the roles of a guild.
pub fn role_entities(guild_id: GuildId, roles: Vec<Role>) -> (entities: Vec<RoleEntity>)
    ensures
        entities@ == role_entities_of(guild_id, roles@),
{
    let mut entities: Vec<RoleEntity> = Vec::new();
    for role in it: roles.into_iter()
        invariant
            it.seq() == roles@,
            entities@ == role_entities_of(guild_id, roles@.take(it.index() as int)),
    {
        let ghost n = entities@.len() as int;
        entities.push(RoleEntity::from((role, guild_id)));
        proof {
            assert(roles@.take(n + 1) =~= roles@.take(n).push(roles@[n]));
            assert(entities@ =~= role_entities_of(guild_id, roles@.take(n + 1)));
        }
    }
    proof {
        assert(roles@.take(roles@.len() as int) =~= roles@);
    }
    entities
}

} // verus!
