//! Entities related to voice.

pub mod state;

pub use self::state::VoiceStateEntity;
