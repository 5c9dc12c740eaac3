//! The payloads that concern presences.

use vstd::prelude::*;
use crate::id::{GuildId, UserId};
use crate::model::user::User;
use twilight_model::gateway::presence::{Activity, ClientStatus, Status};

verus! {

/// The user of a presence: the whole user, or only its id.
#[derive(Clone, Debug, PartialEq, Eq)]
pub enum UserOrId {
    User(User),
    UserId { id: UserId },
}

impl UserOrId {
    /// The id of the user, whichever form it came in.
    pub open spec fn spec_id(self) -> UserId {
        match self {
            UserOrId::User(user) => user.id,
            UserOrId::UserId { id } => id,
        }
    }

    /// Returns the id of the user, whichever form it came in.
    pub fn id(&self) -> (id: UserId)
        ensures
            id == self.spec_id(),
    {
        match self {
            UserOrId::User(user) => user.id,
            UserOrId::UserId { id } => *id,
        }
    }
}

/// The presence of a user in a guild.
#[derive(Clone, Debug, PartialEq, Eq)]
pub struct Presence {
    pub activities: Vec<Activity>,
    pub client_status: ClientStatus,
    pub guild_id: GuildId,
    pub status: Status,
    pub user: UserOrId,
}

} // verus!
