//! The data that the gateway delivers, in the shape in which the cache reads
//! it.
//!
//! A payload nests the objects that it mentions (a member holds its user, a
//! message its author and its attachments); the entities of
//! [`crate::entity`] are made from it and refer to each other by id only.

pub mod channel;
pub mod gateway;
pub mod guild;
pub mod presence;
pub mod twilight;
pub mod user;
pub mod voice;
