//! What the tables of the in-memory backend hold, and how each entity type
//! is laid into a table: the flag that switches it on, the key of an id, and
//! the record of an entity.

use vstd::prelude::*;
use crate::config::{
    BITS_ATTACHMENT, BITS_CHANNEL_CATEGORY, BITS_CHANNEL_GROUP, BITS_CHANNEL_PRIVATE,
    BITS_CHANNEL_TEXT, BITS_CHANNEL_VOICE, BITS_EMOJI, BITS_GUILD, BITS_MEMBER, BITS_MESSAGE,
    BITS_PRESENCE, BITS_ROLE, BITS_USER, BITS_VOICE_STATE, EntityType,
};
use crate::entity::Entity;
use crate::entity::channel::{
    AttachmentEntity, CategoryChannelEntity, GroupEntity, MessageEntity, PrivateChannelEntity,
    TextChannelEntity, VoiceChannelEntity,
};
use crate::entity::gateway::PresenceEntity;
use crate::entity::guild::{EmojiEntity, GuildEntity, MemberEntity, RoleEntity};
use crate::entity::user::UserEntity;
use crate::entity::voice::VoiceStateEntity;
use crate::id::{AttachmentId, ChannelId, EmojiId, GuildId, MessageId, RoleId, UserId};
use crate::inmemory::table::Key;

verus! {

/// An entity of any of the types that are kept by id, as a table holds it.
#[derive(Clone, Debug, PartialEq, Eq)]
pub enum Record {
    Attachment(AttachmentEntity),
    CategoryChannel(CategoryChannelEntity),
    Emoji(EmojiEntity),
    Group(GroupEntity),
    Guild(GuildEntity),
    Member(MemberEntity),
    Message(MessageEntity),
    Presence(PresenceEntity),
    PrivateChannel(PrivateChannelEntity),
    Role(RoleEntity),
    TextChannel(TextChannelEntity),
    User(UserEntity),
    VoiceChannel(VoiceChannelEntity),
    VoiceState(VoiceStateEntity),
}

/// An entity that the in-memory backend keeps in a table.
pub trait EntityExt: Entity {
    /// The bits of the flag that switches the caching of the entity type on.
    spec fn spec_type_bits() -> u64;

    /// The key of an id.
    spec fn spec_key(id: Self::Id) -> Key;

    /// The id of a key.
    spec fn spec_id_of(key: Key) -> Self::Id;

    /// The record of an entity.
    spec fn spec_record(self) -> Record;

    /// The entity of a record, if the record is one of this entity type.
    spec fn spec_of_record(record: Record) -> Option<Self>;

    /// The owner under which the index of the table lists the entity, if it
    /// lists it: the guild of what is listed by guild, and the channel of a
    /// message.
    spec fn spec_owner(&self) -> Option<u64>;

    /// The key of an id leads back to the id.
    proof fn lemma_key(id: Self::Id)
        ensures
            Self::spec_id_of(Self::spec_key(id)) == id,
    ;

    /// The record of an entity leads back to the entity.
    proof fn lemma_record(entity: Self)
        ensures
            Self::spec_of_record(entity.spec_record()) == Some(entity),
    ;

    /// Return the flag that switches the caching of the entity type on.
    fn entity_type() -> (flag: EntityType)
        ensures
            flag.spec_bits() == Self::spec_type_bits(),
    ;

    /// Return the key of an id.
    fn key(id: &Self::Id) -> (key: Key)
        ensures
            key == Self::spec_key(*id),
    ;

    /// Return the id of a key.
    fn id_of(key: Key) -> (id: Self::Id)
        ensures
            id == Self::spec_id_of(key),
    ;

    /// Lay an entity into a record.
    fn into_record(self) -> (record: Record)
        ensures
            record == self.spec_record(),
    ;

    /// Take the entity out of a record, if the record is one of this entity
    /// type.
    fn of_record(record: Record) -> (entity: Option<Self>)
        ensures
            entity == Self::spec_of_record(record),
    ;

    /// Return the owner under which the index of the table lists the
    /// entity, if it lists it.
    fn owner(&self) -> (owner: Option<u64>)
        ensures
            owner == self.spec_owner(),
    ;
}

/// The owner of an entity that is listed by guild, or not at all.
pub open spec fn guild_owner(scope: Option<GuildId>) -> Option<u64> {
    match scope {
        Some(guild_id) => Some(guild_id.0),
        None => None,
    }
}

/// An entity that the index of its table lists under its guild, if it is
/// listed at all.
pub trait ByGuild: EntityExt {
    /// The owner of the entity is the guild that it is listed under.
    proof fn lemma_owner(&self)
        ensures
            self.spec_owner() == guild_owner(self.spec_scope()),
    ;
}

impl EntityExt for AttachmentEntity {
    open spec fn spec_type_bits() -> u64 {
        BITS_ATTACHMENT
    }

    open spec fn spec_key(id: AttachmentId) -> Key {
        (id.0, 0)
    }

    open spec fn spec_id_of(key: Key) -> AttachmentId {
        AttachmentId(key.0)
    }

    open spec fn spec_record(self) -> Record {
        Record::Attachment(self)
    }

    open spec fn spec_of_record(record: Record) -> Option<AttachmentEntity> {
        match record {
            Record::Attachment(entity) => Some(entity),
            _ => None,
        }
    }

    open spec fn spec_owner(&self) -> Option<u64> {
        guild_owner(self.spec_scope())
    }

    proof fn lemma_key(id: AttachmentId) {
    }

    proof fn lemma_record(entity: AttachmentEntity) {
    }

    fn entity_type() -> (flag: EntityType) {
        EntityType::ATTACHMENT()
    }

    fn key(id: &AttachmentId) -> (key: Key) {
        (id.0, 0)
    }

    fn id_of(key: Key) -> (id: AttachmentId) {
        AttachmentId(key.0)
    }

    fn into_record(self) -> (record: Record) {
        Record::Attachment(self)
    }

    fn of_record(record: Record) -> (entity: Option<AttachmentEntity>) {
        match record {
            Record::Attachment(entity) => Some(entity),
            _ => None,
        }
    }

    fn owner(&self) -> (owner: Option<u64>) {
        match self.scope() {
            Some(guild_id) => Some(guild_id.0),
            None => None,
        }
    }
}

impl ByGuild for AttachmentEntity {
    proof fn lemma_owner(&self) {
    }
}

impl EntityExt for CategoryChannelEntity {
    open spec fn spec_type_bits() -> u64 {
        BITS_CHANNEL_CATEGORY
    }

    open spec fn spec_key(id: ChannelId) -> Key {
        (id.0, 0)
    }

    open spec fn spec_id_of(key: Key) -> ChannelId {
        ChannelId(key.0)
    }

    open spec fn spec_record(self) -> Record {
        Record::CategoryChannel(self)
    }

    open spec fn spec_of_record(record: Record) -> Option<CategoryChannelEntity> {
        match record {
            Record::CategoryChannel(entity) => Some(entity),
            _ => None,
        }
    }

    open spec fn spec_owner(&self) -> Option<u64> {
        guild_owner(self.spec_scope())
    }

    proof fn lemma_key(id: ChannelId) {
    }

    proof fn lemma_record(entity: CategoryChannelEntity) {
    }

    fn entity_type() -> (flag: EntityType) {
        EntityType::CHANNEL_CATEGORY()
    }

    fn key(id: &ChannelId) -> (key: Key) {
        (id.0, 0)
    }

    fn id_of(key: Key) -> (id: ChannelId) {
        ChannelId(key.0)
    }

    fn into_record(self) -> (record: Record) {
        Record::CategoryChannel(self)
    }

    fn of_record(record: Record) -> (entity: Option<CategoryChannelEntity>) {
        match record {
            Record::CategoryChannel(entity) => Some(entity),
            _ => None,
        }
    }

    fn owner(&self) -> (owner: Option<u64>) {
        match self.scope() {
            Some(guild_id) => Some(guild_id.0),
            None => None,
        }
    }
}

impl ByGuild for CategoryChannelEntity {
    proof fn lemma_owner(&self) {
    }
}

impl EntityExt for EmojiEntity {
    open spec fn spec_type_bits() -> u64 {
        BITS_EMOJI
    }

    open spec fn spec_key(id: EmojiId) -> Key {
        (id.0, 0)
    }

    open spec fn spec_id_of(key: Key) -> EmojiId {
        EmojiId(key.0)
    }

    open spec fn spec_record(self) -> Record {
        Record::Emoji(self)
    }

    open spec fn spec_of_record(record: Record) -> Option<EmojiEntity> {
        match record {
            Record::Emoji(entity) => Some(entity),
            _ => None,
        }
    }

    open spec fn spec_owner(&self) -> Option<u64> {
        guild_owner(self.spec_scope())
    }

    proof fn lemma_key(id: EmojiId) {
    }

    proof fn lemma_record(entity: EmojiEntity) {
    }

    fn entity_type() -> (flag: EntityType) {
        EntityType::EMOJI()
    }

    fn key(id: &EmojiId) -> (key: Key) {
        (id.0, 0)
    }

    fn id_of(key: Key) -> (id: EmojiId) {
        EmojiId(key.0)
    }

    fn into_record(self) -> (record: Record) {
        Record::Emoji(self)
    }

    fn of_record(record: Record) -> (entity: Option<EmojiEntity>) {
        match record {
            Record::Emoji(entity) => Some(entity),
            _ => None,
        }
    }

    fn owner(&self) -> (owner: Option<u64>) {
        match self.scope() {
            Some(guild_id) => Some(guild_id.0),
            None => None,
        }
    }
}

impl ByGuild for EmojiEntity {
    proof fn lemma_owner(&self) {
    }
}

impl EntityExt for GroupEntity {
    open spec fn spec_type_bits() -> u64 {
        BITS_CHANNEL_GROUP
    }

    open spec fn spec_key(id: ChannelId) -> Key {
        (id.0, 0)
    }

    open spec fn spec_id_of(key: Key) -> ChannelId {
        ChannelId(key.0)
    }

    open spec fn spec_record(self) -> Record {
        Record::Group(self)
    }

    open spec fn spec_of_record(record: Record) -> Option<GroupEntity> {
        match record {
            Record::Group(entity) => Some(entity),
            _ => None,
        }
    }

    open spec fn spec_owner(&self) -> Option<u64> {
        guild_owner(self.spec_scope())
    }

    proof fn lemma_key(id: ChannelId) {
    }

    proof fn lemma_record(entity: GroupEntity) {
    }

    fn entity_type() -> (flag: EntityType) {
        EntityType::CHANNEL_GROUP()
    }

    fn key(id: &ChannelId) -> (key: Key) {
        (id.0, 0)
    }

    fn id_of(key: Key) -> (id: ChannelId) {
        ChannelId(key.0)
    }

    fn into_record(self) -> (record: Record) {
        Record::Group(self)
    }

    fn of_record(record: Record) -> (entity: Option<GroupEntity>) {
        match record {
            Record::Group(entity) => Some(entity),
            _ => None,
        }
    }

    fn owner(&self) -> (owner: Option<u64>) {
        match self.scope() {
            Some(guild_id) => Some(guild_id.0),
            None => None,
        }
    }
}

impl ByGuild for GroupEntity {
    proof fn lemma_owner(&self) {
    }
}

impl EntityExt for GuildEntity {
    open spec fn spec_type_bits() -> u64 {
        BITS_GUILD
    }

    open spec fn spec_key(id: GuildId) -> Key {
        (id.0, 0)
    }

    open spec fn spec_id_of(key: Key) -> GuildId {
        GuildId(key.0)
    }

    open spec fn spec_record(self) -> Record {
        Record::Guild(self)
    }

    open spec fn spec_of_record(record: Record) -> Option<GuildEntity> {
        match record {
            Record::Guild(entity) => Some(entity),
            _ => None,
        }
    }

    open spec fn spec_owner(&self) -> Option<u64> {
        guild_owner(self.spec_scope())
    }

    proof fn lemma_key(id: GuildId) {
    }

    proof fn lemma_record(entity: GuildEntity) {
    }

    fn entity_type() -> (flag: EntityType) {
        EntityType::GUILD()
    }

    fn key(id: &GuildId) -> (key: Key) {
        (id.0, 0)
    }

    fn id_of(key: Key) -> (id: GuildId) {
        GuildId(key.0)
    }

    fn into_record(self) -> (record: Record) {
        Record::Guild(self)
    }

    fn of_record(record: Record) -> (entity: Option<GuildEntity>) {
        match record {
            Record::Guild(entity) => Some(entity),
            _ => None,
        }
    }

    fn owner(&self) -> (owner: Option<u64>) {
        match self.scope() {
            Some(guild_id) => Some(guild_id.0),
            None => None,
        }
    }
}

impl ByGuild for GuildEntity {
    proof fn lemma_owner(&self) {
    }
}

impl EntityExt for MemberEntity {
    open spec fn spec_type_bits() -> u64 {
        BITS_MEMBER
    }

    open spec fn spec_key(id: (GuildId, UserId)) -> Key {
        (id.0.0, id.1.0)
    }

    open spec fn spec_id_of(key: Key) -> (GuildId, UserId) {
        (GuildId(key.0), UserId(key.1))
    }

    open spec fn spec_record(self) -> Record {
        Record::Member(self)
    }

    open spec fn spec_of_record(record: Record) -> Option<MemberEntity> {
        match record {
            Record::Member(entity) => Some(entity),
            _ => None,
        }
    }

    open spec fn spec_owner(&self) -> Option<u64> {
        guild_owner(self.spec_scope())
    }

    proof fn lemma_key(id: (GuildId, UserId)) {
    }

    proof fn lemma_record(entity: MemberEntity) {
    }

    fn entity_type() -> (flag: EntityType) {
        EntityType::MEMBER()
    }

    fn key(id: &(GuildId, UserId)) -> (key: Key) {
        (id.0.0, id.1.0)
    }

    fn id_of(key: Key) -> (id: (GuildId, UserId)) {
        (GuildId(key.0), UserId(key.1))
    }

    fn into_record(self) -> (record: Record) {
        Record::Member(self)
    }

    fn of_record(record: Record) -> (entity: Option<MemberEntity>) {
        match record {
            Record::Member(entity) => Some(entity),
            _ => None,
        }
    }

    fn owner(&self) -> (owner: Option<u64>) {
        match self.scope() {
            Some(guild_id) => Some(guild_id.0),
            None => None,
        }
    }
}

impl ByGuild for MemberEntity {
    proof fn lemma_owner(&self) {
    }
}

impl EntityExt for MessageEntity {
    open spec fn spec_type_bits() -> u64 {
        BITS_MESSAGE
    }

    open spec fn spec_key(id: MessageId) -> Key {
        (id.0, 0)
    }

    open spec fn spec_id_of(key: Key) -> MessageId {
        MessageId(key.0)
    }

    open spec fn spec_record(self) -> Record {
        Record::Message(self)
    }

    open spec fn spec_of_record(record: Record) -> Option<MessageEntity> {
        match record {
            Record::Message(entity) => Some(entity),
            _ => None,
        }
    }

    open spec fn spec_owner(&self) -> Option<u64> {
        Some(self.channel_id.0)
    }

    proof fn lemma_key(id: MessageId) {
    }

    proof fn lemma_record(entity: MessageEntity) {
    }

    fn entity_type() -> (flag: EntityType) {
        EntityType::MESSAGE()
    }

    fn key(id: &MessageId) -> (key: Key) {
        (id.0, 0)
    }

    fn id_of(key: Key) -> (id: MessageId) {
        MessageId(key.0)
    }

    fn into_record(self) -> (record: Record) {
        Record::Message(self)
    }

    fn of_record(record: Record) -> (entity: Option<MessageEntity>) {
        match record {
            Record::Message(entity) => Some(entity),
            _ => None,
        }
    }

    fn owner(&self) -> (owner: Option<u64>) {
        Some(self.channel_id.0)
    }
}

impl EntityExt for PresenceEntity {
    open spec fn spec_type_bits() -> u64 {
        BITS_PRESENCE
    }

    open spec fn spec_key(id: (GuildId, UserId)) -> Key {
        (id.0.0, id.1.0)
    }

    open spec fn spec_id_of(key: Key) -> (GuildId, UserId) {
        (GuildId(key.0), UserId(key.1))
    }

    open spec fn spec_record(self) -> Record {
        Record::Presence(self)
    }

    open spec fn spec_of_record(record: Record) -> Option<PresenceEntity> {
        match record {
            Record::Presence(entity) => Some(entity),
            _ => None,
        }
    }

    open spec fn spec_owner(&self) -> Option<u64> {
        guild_owner(self.spec_scope())
    }

    proof fn lemma_key(id: (GuildId, UserId)) {
    }

    proof fn lemma_record(entity: PresenceEntity) {
    }

    fn entity_type() -> (flag: EntityType) {
        EntityType::PRESENCE()
    }

    fn key(id: &(GuildId, UserId)) -> (key: Key) {
        (id.0.0, id.1.0)
    }

    fn id_of(key: Key) -> (id: (GuildId, UserId)) {
        (GuildId(key.0), UserId(key.1))
    }

    fn into_record(self) -> (record: Record) {
        Record::Presence(self)
    }

    fn of_record(record: Record) -> (entity: Option<PresenceEntity>) {
        match record {
            Record::Presence(entity) => Some(entity),
            _ => None,
        }
    }

    fn owner(&self) -> (owner: Option<u64>) {
        match self.scope() {
            Some(guild_id) => Some(guild_id.0),
            None => None,
        }
    }
}

impl ByGuild for PresenceEntity {
    proof fn lemma_owner(&self) {
    }
}

impl EntityExt for PrivateChannelEntity {
    open spec fn spec_type_bits() -> u64 {
        BITS_CHANNEL_PRIVATE
    }

    open spec fn spec_key(id: ChannelId) -> Key {
        (id.0, 0)
    }

    open spec fn spec_id_of(key: Key) -> ChannelId {
        ChannelId(key.0)
    }

    open spec fn spec_record(self) -> Record {
        Record::PrivateChannel(self)
    }

    open spec fn spec_of_record(record: Record) -> Option<PrivateChannelEntity> {
        match record {
            Record::PrivateChannel(entity) => Some(entity),
            _ => None,
        }
    }

    open spec fn spec_owner(&self) -> Option<u64> {
        guild_owner(self.spec_scope())
    }

    proof fn lemma_key(id: ChannelId) {
    }

    proof fn lemma_record(entity: PrivateChannelEntity) {
    }

    fn entity_type() -> (flag: EntityType) {
        EntityType::CHANNEL_PRIVATE()
    }

    fn key(id: &ChannelId) -> (key: Key) {
        (id.0, 0)
    }

    fn id_of(key: Key) -> (id: ChannelId) {
        ChannelId(key.0)
    }

    fn into_record(self) -> (record: Record) {
        Record::PrivateChannel(self)
    }

    fn of_record(record: Record) -> (entity: Option<PrivateChannelEntity>) {
        match record {
            Record::PrivateChannel(entity) => Some(entity),
            _ => None,
        }
    }

    fn owner(&self) -> (owner: Option<u64>) {
        match self.scope() {
            Some(guild_id) => Some(guild_id.0),
            None => None,
        }
    }
}

impl ByGuild for PrivateChannelEntity {
    proof fn lemma_owner(&self) {
    }
}

impl EntityExt for RoleEntity {
    open spec fn spec_type_bits() -> u64 {
        BITS_ROLE
    }

    open spec fn spec_key(id: RoleId) -> Key {
        (id.0, 0)
    }

    open spec fn spec_id_of(key: Key) -> RoleId {
        RoleId(key.0)
    }

    open spec fn spec_record(self) -> Record {
        Record::Role(self)
    }

    open spec fn spec_of_record(record: Record) -> Option<RoleEntity> {
        match record {
            Record::Role(entity) => Some(entity),
            _ => None,
        }
    }

    open spec fn spec_owner(&self) -> Option<u64> {
        guild_owner(self.spec_scope())
    }

    proof fn lemma_key(id: RoleId) {
    }

    proof fn lemma_record(entity: RoleEntity) {
    }

    fn entity_type() -> (flag: EntityType) {
        EntityType::ROLE()
    }

    fn key(id: &RoleId) -> (key: Key) {
        (id.0, 0)
    }

    fn id_of(key: Key) -> (id: RoleId) {
        RoleId(key.0)
    }

    fn into_record(self) -> (record: Record) {
        Record::Role(self)
    }

    fn of_record(record: Record) -> (entity: Option<RoleEntity>) {
        match record {
            Record::Role(entity) => Some(entity),
            _ => None,
        }
    }

    fn owner(&self) -> (owner: Option<u64>) {
        match self.scope() {
            Some(guild_id) => Some(guild_id.0),
            None => None,
        }
    }
}

impl ByGuild for RoleEntity {
    proof fn lemma_owner(&self) {
    }
}

impl EntityExt for TextChannelEntity {
    open spec fn spec_type_bits() -> u64 {
        BITS_CHANNEL_TEXT
    }

    open spec fn spec_key(id: ChannelId) -> Key {
        (id.0, 0)
    }

    open spec fn spec_id_of(key: Key) -> ChannelId {
        ChannelId(key.0)
    }

    open spec fn spec_record(self) -> Record {
        Record::TextChannel(self)
    }

    open spec fn spec_of_record(record: Record) -> Option<TextChannelEntity> {
        match record {
            Record::TextChannel(entity) => Some(entity),
            _ => None,
        }
    }

    open spec fn spec_owner(&self) -> Option<u64> {
        guild_owner(self.spec_scope())
    }

    proof fn lemma_key(id: ChannelId) {
    }

    proof fn lemma_record(entity: TextChannelEntity) {
    }

    fn entity_type() -> (flag: EntityType) {
        EntityType::CHANNEL_TEXT()
    }

    fn key(id: &ChannelId) -> (key: Key) {
        (id.0, 0)
    }

    fn id_of(key: Key) -> (id: ChannelId) {
        ChannelId(key.0)
    }

    fn into_record(self) -> (record: Record) {
        Record::TextChannel(self)
    }

    fn of_record(record: Record) -> (entity: Option<TextChannelEntity>) {
        match record {
            Record::TextChannel(entity) => Some(entity),
            _ => None,
        }
    }

    fn owner(&self) -> (owner: Option<u64>) {
        match self.scope() {
            Some(guild_id) => Some(guild_id.0),
            None => None,
        }
    }
}

impl ByGuild for TextChannelEntity {
    proof fn lemma_owner(&self) {
    }
}

impl EntityExt for UserEntity {
    open spec fn spec_type_bits() -> u64 {
        BITS_USER
    }

    open spec fn spec_key(id: UserId) -> Key {
        (id.0, 0)
    }

    open spec fn spec_id_of(key: Key) -> UserId {
        UserId(key.0)
    }

    open spec fn spec_record(self) -> Record {
        Record::User(self)
    }

    open spec fn spec_of_record(record: Record) -> Option<UserEntity> {
        match record {
            Record::User(entity) => Some(entity),
            _ => None,
        }
    }

    open spec fn spec_owner(&self) -> Option<u64> {
        guild_owner(self.spec_scope())
    }

    proof fn lemma_key(id: UserId) {
    }

    proof fn lemma_record(entity: UserEntity) {
    }

    fn entity_type() -> (flag: EntityType) {
        EntityType::USER()
    }

    fn key(id: &UserId) -> (key: Key) {
        (id.0, 0)
    }

    fn id_of(key: Key) -> (id: UserId) {
        UserId(key.0)
    }

    fn into_record(self) -> (record: Record) {
        Record::User(self)
    }

    fn of_record(record: Record) -> (entity: Option<UserEntity>) {
        match record {
            Record::User(entity) => Some(entity),
            _ => None,
        }
    }

    fn owner(&self) -> (owner: Option<u64>) {
        match self.scope() {
            Some(guild_id) => Some(guild_id.0),
            None => None,
        }
    }
}

impl ByGuild for UserEntity {
    proof fn lemma_owner(&self) {
    }
}

impl EntityExt for VoiceChannelEntity {
    open spec fn spec_type_bits() -> u64 {
        BITS_CHANNEL_VOICE
    }

    open spec fn spec_key(id: ChannelId) -> Key {
        (id.0, 0)
    }

    open spec fn spec_id_of(key: Key) -> ChannelId {
        ChannelId(key.0)
    }

    open spec fn spec_record(self) -> Record {
        Record::VoiceChannel(self)
    }

    open spec fn spec_of_record(record: Record) -> Option<VoiceChannelEntity> {
        match record {
            Record::VoiceChannel(entity) => Some(entity),
            _ => None,
        }
    }

    open spec fn spec_owner(&self) -> Option<u64> {
        guild_owner(self.spec_scope())
    }

    proof fn lemma_key(id: ChannelId) {
    }

    proof fn lemma_record(entity: VoiceChannelEntity) {
    }

    fn entity_type() -> (flag: EntityType) {
        EntityType::CHANNEL_VOICE()
    }

    fn key(id: &ChannelId) -> (key: Key) {
        (id.0, 0)
    }

    fn id_of(key: Key) -> (id: ChannelId) {
        ChannelId(key.0)
    }

    fn into_record(self) -> (record: Record) {
        Record::VoiceChannel(self)
    }

    fn of_record(record: Record) -> (entity: Option<VoiceChannelEntity>) {
        match record {
            Record::VoiceChannel(entity) => Some(entity),
            _ => None,
        }
    }

    fn owner(&self) -> (owner: Option<u64>) {
        match self.scope() {
            Some(guild_id) => Some(guild_id.0),
            None => None,
        }
    }
}

impl ByGuild for VoiceChannelEntity {
    proof fn lemma_owner(&self) {
    }
}

impl EntityExt for VoiceStateEntity {
    open spec fn spec_type_bits() -> u64 {
        BITS_VOICE_STATE
    }

    open spec fn spec_key(id: (GuildId, UserId)) -> Key {
        (id.0.0, id.1.0)
    }

    open spec fn spec_id_of(key: Key) -> (GuildId, UserId) {
        (GuildId(key.0), UserId(key.1))
    }

    open spec fn spec_record(self) -> Record {
        Record::VoiceState(self)
    }

    open spec fn spec_of_record(record: Record) -> Option<VoiceStateEntity> {
        match record {
            Record::VoiceState(entity) => Some(entity),
            _ => None,
        }
    }

    open spec fn spec_owner(&self) -> Option<u64> {
        guild_owner(self.spec_scope())
    }

    proof fn lemma_key(id: (GuildId, UserId)) {
    }

    proof fn lemma_record(entity: VoiceStateEntity) {
    }

    fn entity_type() -> (flag: EntityType) {
        EntityType::VOICE_STATE()
    }

    fn key(id: &(GuildId, UserId)) -> (key: Key) {
        (id.0.0, id.1.0)
    }

    fn id_of(key: Key) -> (id: (GuildId, UserId)) {
        (GuildId(key.0), UserId(key.1))
    }

    fn into_record(self) -> (record: Record) {
        Record::VoiceState(self)
    }

    fn of_record(record: Record) -> (entity: Option<VoiceStateEntity>) {
        match record {
            Record::VoiceState(entity) => Some(entity),
            _ => None,
        }
    }

    fn owner(&self) -> (owner: Option<u64>) {
        match self.scope() {
            Some(guild_id) => Some(guild_id.0),
            None => None,
        }
    }
}

impl ByGuild for VoiceStateEntity {
    proof fn lemma_owner(&self) {
    }
}

} // verus!
