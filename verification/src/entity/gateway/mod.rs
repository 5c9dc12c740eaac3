//! Entities related to the gateway.

pub mod presence;

pub use self::presence::PresenceEntity;
