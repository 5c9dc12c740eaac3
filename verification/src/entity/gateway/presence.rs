//! The presence entity and its repository.

use vstd::prelude::*;
use crate::entity::Entity;
use crate::id::{GuildId, UserId};
use crate::model::gateway::PresenceUpdate;
use crate::model::presence::Presence;
use crate::repository::Repository;
use twilight_model::gateway::presence::{Activity, ClientStatus, Status};

verus! {

/// The presence of a user in a guild, with the id of the user.
#[derive(Clone, Debug, PartialEq, Eq)]
pub struct PresenceEntity {
    pub activities: Vec<Activity>,
    pub client_status: ClientStatus,
    pub guild_id: GuildId,
    pub status: Status,
    pub user_id: UserId,
}

impl PresenceEntity {
    /// The entity that [`PresenceEntity::from`] makes.
    pub open spec fn spec_from(presence: Presence) -> PresenceEntity {
        PresenceEntity {
            activities: presence.activities,
            client_status: presence.client_status,
            guild_id: presence.guild_id,
            status: presence.status,
            user_id: presence.user.spec_id(),
        }
    }

    /// Whether the entity is the one made from `update`: its activities are
    /// the game of the update, if it has one, and then its activities.
    pub open spec fn is_from_update(self, update: PresenceUpdate) -> bool {
        &&& self.activities@ == (match update.game {
            Some(game) => seq![game] + update.activities@,
            None => update.activities@,
        })
        &&& self.client_status == update.client_status
        &&& self.guild_id == update.guild_id
        &&& self.status == update.status
        &&& self.user_id == update.user.spec_id()
    }

    /// Make the entity of a presence.
    pub fn from(presence: Presence) -> (entity: PresenceEntity)
        ensures
            entity == Self::spec_from(presence),
    {
        PresenceEntity {
            activities: presence.activities,
            client_status: presence.client_status,
            guild_id: presence.guild_id,
            status: presence.status,
            user_id: presence.user.id(),
        }
    }

    /// Make the entity of an updated presence.
    ///
    /// The game of the update, if it has one, is the first of the
    /// activities of the entity.
    pub fn from_update(update: PresenceUpdate) -> (entity: PresenceEntity)
        ensures
            entity.is_from_update(update),
    {
        let mut activities = update.activities;
        match update.game {
            Some(game) => {
                activities.insert(0, game);
                assert(activities@ =~= seq![game] + update.activities@);
            },
            None => {},
        }
        PresenceEntity {
            activities,
            client_status: update.client_status,
            guild_id: update.guild_id,
            status: update.status,
            user_id: update.user.id(),
        }
    }
}

impl Entity for PresenceEntity {
    type Id = (GuildId, UserId);

    open spec fn spec_id(&self) -> (GuildId, UserId) {
        (self.guild_id, self.user_id)
    }

    open spec fn spec_scope(&self) -> Option<GuildId> {
        Some(self.guild_id)
    }

    /// Return an ID consisting of a tuple of the guild ID and user ID.
    fn id(&self) -> (id: (GuildId, UserId)) {
        (self.guild_id, self.user_id)
    }

    fn scope(&self) -> (guild_id: Option<GuildId>) {
        Some(self.guild_id)
    }
}

/// Repository to work with presences.
pub trait PresenceRepository<Error>: Repository<PresenceEntity, Error> {
}

/// The entities of presences, in their order.
pub open spec fn presence_entities_of(presences: Seq<Presence>) -> Seq<PresenceEntity> {
    presences.map_values(|presence: Presence| PresenceEntity::spec_from(presence))
}

/// Make the entities of presences.
pub fn presence_entities(presences: Vec<Presence>) -> (entities: Vec<PresenceEntity>)
    ensures
        entities@ == presence_entities_of(presences@),
{
    let mut entities: Vec<PresenceEntity> = Vec::new();
    for presence in it: presences.into_iter()
        invariant
            it.seq() == presences@,
            entities@ == presence_entities_of(presences@.take(it.index() as int)),
    {
        let ghost n = entities@.len() as int;
        entities.push(PresenceEntity::from(presence));
        proof {
            assert(presences@.take(n + 1) =~= presences@.take(n).push(presences@[n]));
            assert(entities@ =~= presence_entities_of(presences@.take(n + 1)));
        }
    }
    proof {
        assert(presences@.take(presences@.len() as int) =~= presences@);
    }
    entities
}

} // verus!
