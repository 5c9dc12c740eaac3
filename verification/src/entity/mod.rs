//! Efficient cachable entities mapping to the models that the gateway
//! delivers.
//!
//! An entity holds foreign ids, never nested objects: the emoji entity does
//! not contain the user that made it, but only the id of that user. There is
//! one authoritative copy of the data of any object, and everything else
//! refers to it by id, as a foreign key does in a relational database.

pub mod channel;
pub mod gateway;
pub mod guild;
pub mod user;
pub mod voice;

use vstd::prelude::*;
use crate::id::GuildId;

verus! {

/// A record of the cache, identified by a stable id.
pub trait Entity: Sized {
    /// The id of the entity: a single id, or a pair of a guild id and a user
    /// id for what exists once per user and guild.
    type Id;

    /// The id under which the entity is stored.
    spec fn spec_id(&self) -> Self::Id;

    /// The guild whose deletion takes the entity with it, for the entities
    /// that are listed by guild: the channels, emojis, members, presences,
    /// roles and voice states of a guild.
    spec fn spec_scope(&self) -> Option<GuildId>;

    /// Return the ID of the entity.
    ///
    /// For entities like the emoji this will return the emoji's ID, while for
    /// entities like the member this will return a tuple pair of the member's
    /// guild ID and the member's user ID.
    fn id(&self) -> (id: Self::Id)
        ensures
            id == self.spec_id(),
    ;

    /// Return the guild under which the entity is listed, if it is listed
    /// under one.
    fn scope(&self) -> (guild_id: Option<GuildId>)
        ensures
            guild_id == self.spec_scope(),
    ;
}

} // verus!
