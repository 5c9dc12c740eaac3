//! Configuration of the in-memory backend: which entity types are cached, and
//! how many messages are retained per channel.

use vstd::prelude::*;

verus! {

/// The bit of the flag `ATTACHMENT`.
pub const BITS_ATTACHMENT: u64 = 0x1;

/// The bit of the flag `CHANNEL_CATEGORY`.
pub const BITS_CHANNEL_CATEGORY: u64 = 0x2;

/// The bit of the flag `CHANNEL_GROUP`.
pub const BITS_CHANNEL_GROUP: u64 = 0x4;

/// The bit of the flag `CHANNEL_PRIVATE`.
pub const BITS_CHANNEL_PRIVATE: u64 = 0x8;

/// The bit of the flag `CHANNEL_TEXT`.
pub const BITS_CHANNEL_TEXT: u64 = 0x10;

/// The bit of the flag `CHANNEL_VOICE`.
pub const BITS_CHANNEL_VOICE: u64 = 0x20;

/// The bit of the flag `EMOJI`.
pub const BITS_EMOJI: u64 = 0x40;

/// The bit of the flag `GUILD`.
pub const BITS_GUILD: u64 = 0x80;

/// The bit of the flag `MEMBER`.
pub const BITS_MEMBER: u64 = 0x100;

/// The bit of the flag `MESSAGE`.
pub const BITS_MESSAGE: u64 = 0x200;

/// The bit of the flag `PRESENCE`.
pub const BITS_PRESENCE: u64 = 0x400;

/// The bit of the flag `ROLE`.
pub const BITS_ROLE: u64 = 0x800;

/// The bit of the flag `USER`.
pub const BITS_USER: u64 = 0x1000;

/// The bit of the flag `USER_CURRENT`.
pub const BITS_USER_CURRENT: u64 = 0x2000;

/// The bit of the flag `VOICE_STATE`.
pub const BITS_VOICE_STATE: u64 = 0x4000;

/// The bits of all the flags together.
pub const ALL_BITS: u64 = 0x7fff;

/// Flags to enable which entities to operate on.
///
/// Disabled entities will have their repositories skip upsert operations,
/// which means that all entity retrievals will result in `None`.
#[derive(Clone, Copy, Debug, PartialEq, Eq, Structural, Hash)]
pub struct EntityType {
    bits: u64,
}

impl EntityType {
    /// The raw value of the flags stored.
    pub closed spec fn spec_bits(self) -> u64 {
        self.bits
    }

    /// The set of flags with the given raw value.
    pub closed spec fn spec_of(bits: u64) -> EntityType {
        EntityType { bits }
    }

    /// Whether every flag of `other` is set in `self`.
    pub open spec fn spec_contains(self, other: EntityType) -> bool {
        self.spec_bits() & other.spec_bits() == other.spec_bits()
    }

    #[allow(non_snake_case)]
    pub fn ATTACHMENT() -> (flag: EntityType)
        ensures
            flag.spec_bits() == BITS_ATTACHMENT,
    {
        EntityType { bits: BITS_ATTACHMENT }
    }

    #[allow(non_snake_case)]
    pub fn CHANNEL_CATEGORY() -> (flag: EntityType)
        ensures
            flag.spec_bits() == BITS_CHANNEL_CATEGORY,
    {
        EntityType { bits: BITS_CHANNEL_CATEGORY }
    }

    #[allow(non_snake_case)]
    pub fn CHANNEL_GROUP() -> (flag: EntityType)
        ensures
            flag.spec_bits() == BITS_CHANNEL_GROUP,
    {
        EntityType { bits: BITS_CHANNEL_GROUP }
    }

    #[allow(non_snake_case)]
    pub fn CHANNEL_PRIVATE() -> (flag: EntityType)
        ensures
            flag.spec_bits() == BITS_CHANNEL_PRIVATE,
    {
        EntityType { bits: BITS_CHANNEL_PRIVATE }
    }

    #[allow(non_snake_case)]
    pub fn CHANNEL_TEXT() -> (flag: EntityType)
        ensures
            flag.spec_bits() == BITS_CHANNEL_TEXT,
    {
        EntityType { bits: BITS_CHANNEL_TEXT }
    }

    #[allow(non_snake_case)]
    pub fn CHANNEL_VOICE() -> (flag: EntityType)
        ensures
            flag.spec_bits() == BITS_CHANNEL_VOICE,
    {
        EntityType { bits: BITS_CHANNEL_VOICE }
    }

    #[allow(non_snake_case)]
    pub fn EMOJI() -> (flag: EntityType)
        ensures
            flag.spec_bits() == BITS_EMOJI,
    {
        EntityType { bits: BITS_EMOJI }
    }

    #[allow(non_snake_case)]
    pub fn GUILD() -> (flag: EntityType)
        ensures
            flag.spec_bits() == BITS_GUILD,
    {
        EntityType { bits: BITS_GUILD }
    }

    #[allow(non_snake_case)]
    pub fn MEMBER() -> (flag: EntityType)
        ensures
            flag.spec_bits() == BITS_MEMBER,
    {
        EntityType { bits: BITS_MEMBER }
    }

    #[allow(non_snake_case)]
    pub fn MESSAGE() -> (flag: EntityType)
        ensures
            flag.spec_bits() == BITS_MESSAGE,
    {
        EntityType { bits: BITS_MESSAGE }
    }

    #[allow(non_snake_case)]
    pub fn PRESENCE() -> (flag: EntityType)
        ensures
            flag.spec_bits() == BITS_PRESENCE,
    {
        EntityType { bits: BITS_PRESENCE }
    }

    #[allow(non_snake_case)]
    pub fn ROLE() -> (flag: EntityType)
        ensures
            flag.spec_bits() == BITS_ROLE,
    {
        EntityType { bits: BITS_ROLE }
    }

    #[allow(non_snake_case)]
    pub fn USER() -> (flag: EntityType)
        ensures
            flag.spec_bits() == BITS_USER,
    {
        EntityType { bits: BITS_USER }
    }

    #[allow(non_snake_case)]
    pub fn USER_CURRENT() -> (flag: EntityType)
        ensures
            flag.spec_bits() == BITS_USER_CURRENT,
    {
        EntityType { bits: BITS_USER_CURRENT }
    }

    #[allow(non_snake_case)]
    pub fn VOICE_STATE() -> (flag: EntityType)
        ensures
            flag.spec_bits() == BITS_VOICE_STATE,
    {
        EntityType { bits: BITS_VOICE_STATE }
    }

    /// Returns the raw value of the flags currently stored.
    pub fn bits(&self) -> (bits: u64)
        ensures
            bits == self.spec_bits(),
    {
        self.bits
    }

    /// Returns an empty set of flags.
    pub fn empty() -> (none: EntityType)
        ensures
            none.spec_bits() == 0,
    {
        EntityType { bits: 0 }
    }

    /// Returns the set containing all flags.
    pub fn all() -> (all: EntityType)
        ensures
            all.spec_bits() == ALL_BITS,
    {
        EntityType { bits: ALL_BITS }
    }

    /// Returns `true` if no flags are currently stored.
    pub fn is_empty(&self) -> (none: bool)
        ensures
            none == (self.spec_bits() == 0),
    {
        self.bits == 0
    }

    /// Returns `true` if all of the flags in `other` are contained within
    /// `self`.
    pub fn contains(&self, other: EntityType) -> (found: bool)
        ensures
            found == self.spec_contains(other),
    {
        self.bits & other.bits == other.bits
    }

    /// Returns the flags that are set in `self`, in `other`, or in both.
    pub fn union(self, other: EntityType) -> (both: EntityType)
        ensures
            both.spec_bits() == self.spec_bits() | other.spec_bits(),
    {
        EntityType { bits: self.bits | other.bits }
    }

    /// Returns the flags of `self` that are not set in `other`.
    pub fn difference(self, other: EntityType) -> (rest: EntityType)
        ensures
            rest.spec_bits() == self.spec_bits() & !other.spec_bits(),
    {
        EntityType { bits: self.bits & !other.bits }
    }
}

/// A set of flags is known by its raw value.
pub proof fn lemma_bits(flags: EntityType)
    ensures
        EntityType::spec_of(flags.spec_bits()) == flags,
        forall|bits: u64| #[trigger] EntityType::spec_of(bits).spec_bits() == bits,
{
}

/// Configuration for the in memory backend.
///
/// Refer to each setter method to know the default value.
#[derive(Clone, Copy, Debug)]
pub struct Config {
    entity_types: EntityType,
    message_cache_size: usize,
}

impl Config {
    /// The entity types that are cached.
    pub closed spec fn spec_entity_types(&self) -> EntityType {
        self.entity_types
    }

    /// The number of messages at which a channel's oldest message leaves.
    pub closed spec fn spec_message_cache_size(&self) -> usize {
        self.message_cache_size
    }

    /// Returns the entity types enabled.
    pub fn entity_types(&self) -> (types: EntityType)
        ensures
            types == self.spec_entity_types(),
    {
        self.entity_types
    }

    /// Returns a mutable reference to the entity types enabled.
    ///
    /// Disabled entities will have their repositories skip upsert
    /// operations, which means that all entity retrievals will result in
    /// `None`.
    ///
    /// Defaults to all entity types.
    pub fn entity_types_mut(&mut self) -> (types: &mut EntityType)
        ensures
            *types == old(self).spec_entity_types(),
            final(self).spec_entity_types() == *final(types),
            final(self).spec_message_cache_size() == old(self).spec_message_cache_size(),
    {
        &mut self.entity_types
    }

    /// Returns the message cache size.
    pub fn message_cache_size(&self) -> (size: usize)
        ensures
            size == self.spec_message_cache_size(),
    {
        self.message_cache_size
    }

    /// Returns a mutable reference to the message cache size per channel.
    ///
    /// Defaults to 100.
    pub fn message_cache_size_mut(&mut self) -> (size: &mut usize)
        ensures
            *size == old(self).spec_message_cache_size(),
            final(self).spec_message_cache_size() == *final(size),
            final(self).spec_entity_types() == old(self).spec_entity_types(),
    {
        &mut self.message_cache_size
    }
}

impl Default for Config {
    fn default() -> (config: Config)
        ensures
            config.spec_entity_types().spec_bits() == ALL_BITS,
            config.spec_message_cache_size() == 100,
    {
        Config { entity_types: EntityType::all(), message_cache_size: 100 }
    }
}

} // verus!
