//! The backend that caches entities in the memory of the process.

pub mod current_user;
pub mod message;
pub mod record;
pub mod repository;
pub mod store;
pub mod table;

use vstd::prelude::*;
use crate::backend::{Backend, CachePolicy, CacheView};
use crate::cache::Cache;
use crate::config::{
    lemma_bits, ALL_BITS, BITS_ATTACHMENT, BITS_CHANNEL_CATEGORY, BITS_CHANNEL_GROUP,
    BITS_CHANNEL_PRIVATE, BITS_CHANNEL_TEXT, BITS_CHANNEL_VOICE, BITS_EMOJI, BITS_GUILD,
    BITS_MEMBER, BITS_MESSAGE, BITS_PRESENCE, BITS_ROLE, BITS_USER, BITS_USER_CURRENT,
    BITS_VOICE_STATE, Config, EntityType,
};
use crate::entity::channel::attachment::{AttachmentEntity, AttachmentRepository};
use crate::entity::channel::category_channel::{CategoryChannelEntity, CategoryChannelRepository};
use crate::entity::channel::group::{GroupEntity, GroupRepository};
use crate::entity::channel::message::MessageRepository;
use crate::entity::channel::private_channel::{PrivateChannelEntity, PrivateChannelRepository};
use crate::entity::channel::text_channel::{TextChannelEntity, TextChannelRepository};
use crate::entity::channel::voice_channel::{VoiceChannelEntity, VoiceChannelRepository};
use crate::entity::gateway::presence::{PresenceEntity, PresenceRepository};
use crate::entity::guild::{GuildEntity, GuildRepository};
use crate::entity::guild::emoji::{EmojiEntity, EmojiRepository};
use crate::entity::guild::member::{MemberEntity, MemberRepository};
use crate::entity::guild::role::{RoleEntity, RoleRepository};
use crate::entity::user::{UserEntity, UserRepository};
use crate::entity::voice::state::{VoiceStateEntity, VoiceStateRepository};
use crate::inmemory::current_user::InMemoryCurrentUserRepository;
use crate::inmemory::message::InMemoryMessageRepository;
use crate::inmemory::repository::InMemoryRepository;

verus! {

/// The cache over the [`InMemoryBackend`].
pub type InMemoryCache = Cache<InMemoryBackend>;

/// Error returned from backend operations.
///
/// No operation of the in-memory backend returns it: it only exists to
/// satisfy the constraints of cache repositories.
#[derive(Clone, Debug, PartialEq, Eq)]
#[non_exhaustive]
pub struct InMemoryBackendError;

/// Repository to retrieve and work with attachments and their related entities.
pub type InMemoryAttachmentRepository = InMemoryRepository<AttachmentEntity>;

/// Repository to retrieve and work with category channels and their related entities.
pub type InMemoryCategoryChannelRepository = InMemoryRepository<CategoryChannelEntity>;

/// Repository to retrieve and work with emojis and their related entities.
pub type InMemoryEmojiRepository = InMemoryRepository<EmojiEntity>;

/// Repository to retrieve and work with groups and their related entities.
pub type InMemoryGroupRepository = InMemoryRepository<GroupEntity>;

/// Repository to retrieve and work with guilds and their related entities.
pub type InMemoryGuildRepository = InMemoryRepository<GuildEntity>;

/// Repository to retrieve and work with members and their related entities.
pub type InMemoryMemberRepository = InMemoryRepository<MemberEntity>;

/// Repository to retrieve and work with presences and their related entities.
pub type InMemoryPresenceRepository = InMemoryRepository<PresenceEntity>;

/// Repository to retrieve and work with private channels and their related entities.
pub type InMemoryPrivateChannelRepository = InMemoryRepository<PrivateChannelEntity>;

/// Repository to retrieve and work with roles and their related entities.
pub type InMemoryRoleRepository = InMemoryRepository<RoleEntity>;

/// Repository to retrieve and work with text channels and their related entities.
pub type InMemoryTextChannelRepository = InMemoryRepository<TextChannelEntity>;

/// Repository to retrieve and work with users and their related entities.
pub type InMemoryUserRepository = InMemoryRepository<UserEntity>;

/// Repository to retrieve and work with voice channels and their related entities.
pub type InMemoryVoiceChannelRepository = InMemoryRepository<VoiceChannelEntity>;

/// Repository to retrieve and work with voice states and their related entities.
pub type InMemoryVoiceStateRepository = InMemoryRepository<VoiceStateEntity>;

impl AttachmentRepository<InMemoryBackendError> for InMemoryRepository<AttachmentEntity> {
}

impl CategoryChannelRepository<InMemoryBackendError> for InMemoryRepository<CategoryChannelEntity> {
}

impl EmojiRepository<InMemoryBackendError> for InMemoryRepository<EmojiEntity> {
}

impl GroupRepository<InMemoryBackendError> for InMemoryRepository<GroupEntity> {
}

impl GuildRepository<InMemoryBackendError> for InMemoryRepository<GuildEntity> {
}

impl MemberRepository<InMemoryBackendError> for InMemoryRepository<MemberEntity> {
}

impl PresenceRepository<InMemoryBackendError> for InMemoryRepository<PresenceEntity> {
}

impl PrivateChannelRepository<InMemoryBackendError> for InMemoryRepository<PrivateChannelEntity> {
}

impl RoleRepository<InMemoryBackendError> for InMemoryRepository<RoleEntity> {
}

impl TextChannelRepository<InMemoryBackendError> for InMemoryRepository<TextChannelEntity> {
}

impl UserRepository<InMemoryBackendError> for InMemoryRepository<UserEntity> {
}

impl VoiceChannelRepository<InMemoryBackendError> for InMemoryRepository<VoiceChannelEntity> {
}

impl VoiceStateRepository<InMemoryBackendError> for InMemoryRepository<VoiceStateEntity> {
}

impl MessageRepository<InMemoryBackendError> for InMemoryMessageRepository {
}

/// Builder to create a configured [`InMemoryBackend`].
#[derive(Clone, Debug)]
pub struct InMemoryBackendBuilder(Config);

impl InMemoryBackendBuilder {
    /// The configuration that the builder has so far.
    pub closed spec fn spec_config(&self) -> Config {
        self.0
    }

    /// Create a builder with the default configuration: every entity type
    /// is cached, and the message cache size is 100.
    pub fn new() -> (builder: Self)
        ensures
            builder.spec_config().spec_entity_types() == EntityType::spec_of(ALL_BITS),
            builder.spec_config().spec_message_cache_size() == 100,
    {
        let config = Config::default();
        proof {
            lemma_bits(config.spec_entity_types());
        }
        InMemoryBackendBuilder(config)
    }

    /// Consume the builder, returning a backend with its configuration.
    pub fn build(self) -> (backend: InMemoryBackend)
        ensures
            backend.spec_config() == self.spec_config(),
    {
        InMemoryBackend { config: self.0 }
    }

    /// Set the entity types that are cached.
    ///
    /// Defaults to all entity types.
    pub fn entity_types(&mut self, entity_types: EntityType) -> (builder: &mut Self)
        ensures
            builder.spec_config().spec_entity_types() == entity_types,
            builder.spec_config().spec_message_cache_size() == old(self).spec_config().spec_message_cache_size(),
            *final(self) == *final(builder),
    {
        *self.0.entity_types_mut() = entity_types;
        self
    }

    /// Set the number of messages at which the oldest message of a channel
    /// leaves the cache; 0 switches this off.
    ///
    /// Defaults to 100.
    pub fn message_cache_size(&mut self, message_cache_size: usize) -> (builder: &mut Self)
        ensures
            builder.spec_config().spec_message_cache_size() == message_cache_size,
            builder.spec_config().spec_entity_types() == old(self).spec_config().spec_entity_types(),
            *final(self) == *final(builder),
    {
        *self.0.message_cache_size_mut() = message_cache_size;
        self
    }
}

impl Default for InMemoryBackendBuilder {
    fn default() -> (builder: Self)
        ensures
            builder.spec_config().spec_entity_types() == EntityType::spec_of(ALL_BITS),
            builder.spec_config().spec_message_cache_size() == 100,
    {
        InMemoryBackendBuilder::new()
    }
}

/// Backend implementation to cache entities in the process's memory.
#[derive(Clone, Debug)]
pub struct InMemoryBackend {
    config: Config,
}

impl InMemoryBackend {
    /// The configuration of the backend.
    pub closed spec fn spec_config(&self) -> Config {
        self.config
    }

    /// Whether the configuration of the backend has the flag with the given
    /// bits.
    pub open spec fn caches(&self, bits: u64) -> bool {
        self.spec_config().spec_entity_types().spec_contains(EntityType::spec_of(bits))
    }

    /// Create a new default backend: every entity type is cached, and the
    /// message cache size is 100.
    ///
    /// Use [`InMemoryBackend::builder`] to create a backend from a
    /// configuration.
    pub fn new() -> (backend: Self)
        ensures
            backend.spec_config().spec_entity_types() == EntityType::spec_of(ALL_BITS),
            backend.spec_config().spec_message_cache_size() == 100,
    {
        InMemoryBackendBuilder::new().build()
    }

    /// Create a builder to create a configured in memory backend.
    pub fn builder() -> (builder: InMemoryBackendBuilder)
        ensures
            builder.spec_config().spec_entity_types() == EntityType::spec_of(ALL_BITS),
            builder.spec_config().spec_message_cache_size() == 100,
    {
        InMemoryBackendBuilder::new()
    }

    /// Return a copy of the cache configuration.
    pub fn config(&self) -> (config: Config)
        ensures
            config == self.spec_config(),
    {
        self.config
    }
}

impl Default for InMemoryBackend {
    fn default() -> (backend: Self)
        ensures
            backend.spec_config().spec_entity_types() == EntityType::spec_of(ALL_BITS),
            backend.spec_config().spec_message_cache_size() == 100,
    {
        InMemoryBackend::new()
    }
}

/// In memory implementation of a backend of the cache.
///
/// A repository that the backend makes stores what is upserted if the
/// configuration of the backend has the flag of its entity type.
impl Backend for InMemoryBackend {
    type Error = InMemoryBackendError;

    type AttachmentRepository = InMemoryAttachmentRepository;

    type CategoryChannelRepository = InMemoryCategoryChannelRepository;

    type CurrentUserRepository = InMemoryCurrentUserRepository;

    type EmojiRepository = InMemoryEmojiRepository;

    type GroupRepository = InMemoryGroupRepository;

    type GuildRepository = InMemoryGuildRepository;

    type MemberRepository = InMemoryMemberRepository;

    type MessageRepository = InMemoryMessageRepository;

    type PresenceRepository = InMemoryPresenceRepository;

    type PrivateChannelRepository = InMemoryPrivateChannelRepository;

    type RoleRepository = InMemoryRoleRepository;

    type TextChannelRepository = InMemoryTextChannelRepository;

    type UserRepository = InMemoryUserRepository;

    type VoiceChannelRepository = InMemoryVoiceChannelRepository;

    type VoiceStateRepository = InMemoryVoiceStateRepository;

    open spec fn reliable() -> bool {
        true
    }

    /// A repository stores what is upserted if the configuration has the
    /// flag of its entity type.
    open spec fn policy(&self) -> CachePolicy {
        CachePolicy {
            attachments: self.caches(BITS_ATTACHMENT),
            category_channels: self.caches(BITS_CHANNEL_CATEGORY),
            current_user: self.caches(BITS_USER_CURRENT),
            emojis: self.caches(BITS_EMOJI),
            groups: self.caches(BITS_CHANNEL_GROUP),
            guilds: self.caches(BITS_GUILD),
            members: self.caches(BITS_MEMBER),
            messages: self.caches(BITS_MESSAGE),
            presences: self.caches(BITS_PRESENCE),
            private_channels: self.caches(BITS_CHANNEL_PRIVATE),
            roles: self.caches(BITS_ROLE),
            text_channels: self.caches(BITS_CHANNEL_TEXT),
            users: self.caches(BITS_USER),
            voice_channels: self.caches(BITS_CHANNEL_VOICE),
            voice_states: self.caches(BITS_VOICE_STATE),
        }
    }

    /// The backend starts empty.
    open spec fn stored(&self) -> CacheView {
        CacheView::spec_empty()
    }

    proof fn lemma_repositories() {
    }

    /// A new instance of a repository for working with attachments.
    fn attachments(&self) -> (repo: InMemoryAttachmentRepository) {
        InMemoryRepository::new(&self.config)
    }

    /// A new instance of a repository for working with guild category channels.
    fn category_channels(&self) -> (repo: InMemoryCategoryChannelRepository) {
        InMemoryRepository::new(&self.config)
    }

    /// A new instance of a repository for working with the current user.
    fn current_user(&self) -> (repo: InMemoryCurrentUserRepository) {
        InMemoryCurrentUserRepository::new(&self.config)
    }

    /// A new instance of a repository for working with emojis.
    fn emojis(&self) -> (repo: InMemoryEmojiRepository) {
        InMemoryRepository::new(&self.config)
    }

    /// A new instance of a repository for working with groups.
    fn groups(&self) -> (repo: InMemoryGroupRepository) {
        InMemoryRepository::new(&self.config)
    }

    /// A new instance of a repository for working with guilds.
    fn guilds(&self) -> (repo: InMemoryGuildRepository) {
        InMemoryRepository::new(&self.config)
    }

    /// A new instance of a repository for working with members.
    fn members(&self) -> (repo: InMemoryMemberRepository) {
        InMemoryRepository::new(&self.config)
    }

    /// A new instance of a repository for working with messages.
    fn messages(&self) -> (repo: InMemoryMessageRepository)
        ensures
            repo.message_cache_size() == self.spec_config().spec_message_cache_size(),
    {
        InMemoryMessageRepository::new(&self.config)
    }

    /// A new instance of a repository for working with presences.
    fn presences(&self) -> (repo: InMemoryPresenceRepository) {
        InMemoryRepository::new(&self.config)
    }

    /// A new instance of a repository for working with private channels.
    fn private_channels(&self) -> (repo: InMemoryPrivateChannelRepository) {
        InMemoryRepository::new(&self.config)
    }

    /// A new instance of a repository for working with roles.
    fn roles(&self) -> (repo: InMemoryRoleRepository) {
        InMemoryRepository::new(&self.config)
    }

    /// A new instance of a repository for working with guild text channels.
    fn text_channels(&self) -> (repo: InMemoryTextChannelRepository) {
        InMemoryRepository::new(&self.config)
    }

    /// A new instance of a repository for working with users.
    fn users(&self) -> (repo: InMemoryUserRepository) {
        InMemoryRepository::new(&self.config)
    }

    /// A new instance of a repository for working with guild voice channels.
    fn voice_channels(&self) -> (repo: InMemoryVoiceChannelRepository) {
        InMemoryRepository::new(&self.config)
    }

    /// A new instance of a repository for working with voice states.
    fn voice_states(&self) -> (repo: InMemoryVoiceStateRepository) {
        InMemoryRepository::new(&self.config)
    }
}

} // verus!
