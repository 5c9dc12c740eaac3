//! What a backend is to the cache: the maker of one repository per entity
//! type, all with one type of error.

use vstd::prelude::*;
use crate::entity::channel::attachment::{AttachmentEntity, AttachmentRepository};
use crate::entity::channel::category_channel::{CategoryChannelEntity, CategoryChannelRepository};
use crate::entity::channel::group::{GroupEntity, GroupRepository};
use crate::entity::channel::message::{MessageEntity, MessageRepository};
use crate::entity::channel::private_channel::{PrivateChannelEntity, PrivateChannelRepository};
use crate::entity::channel::text_channel::{TextChannelEntity, TextChannelRepository};
use crate::entity::channel::voice_channel::{VoiceChannelEntity, VoiceChannelRepository};
use crate::entity::gateway::presence::{PresenceEntity, PresenceRepository};
use crate::entity::guild::{GuildEntity, GuildRepository};
use crate::entity::guild::emoji::{EmojiEntity, EmojiRepository};
use crate::entity::guild::member::{MemberEntity, MemberRepository};
use crate::entity::guild::role::{RoleEntity, RoleRepository};
use crate::entity::user::{UserEntity, UserRepository};
use crate::entity::user::current_user::{CurrentUserEntity, CurrentUserRepository};
use crate::entity::voice::state::{VoiceStateEntity, VoiceStateRepository};
use crate::id::{AttachmentId, ChannelId, EmojiId, GuildId, MessageId, RoleId, UserId};
use crate::repository::{Repository, SingleEntityRepository};

verus! {

/// What the repositories of a backend hold: the entities of each, by id.
pub struct CacheView {
    pub attachments: Map<AttachmentId, AttachmentEntity>,
    pub category_channels: Map<ChannelId, CategoryChannelEntity>,
    pub current_user: Option<CurrentUserEntity>,
    pub emojis: Map<EmojiId, EmojiEntity>,
    pub groups: Map<ChannelId, GroupEntity>,
    pub guilds: Map<GuildId, GuildEntity>,
    pub members: Map<(GuildId, UserId), MemberEntity>,
    pub messages: Map<MessageId, MessageEntity>,
    pub presences: Map<(GuildId, UserId), PresenceEntity>,
    pub private_channels: Map<ChannelId, PrivateChannelEntity>,
    pub roles: Map<RoleId, RoleEntity>,
    pub text_channels: Map<ChannelId, TextChannelEntity>,
    pub users: Map<UserId, UserEntity>,
    pub voice_channels: Map<ChannelId, VoiceChannelEntity>,
    pub voice_states: Map<(GuildId, UserId), VoiceStateEntity>,
}

impl CacheView {
    /// What the repositories of a backend hold that has stored nothing.
    pub open spec fn spec_empty() -> CacheView {
        CacheView {
            attachments: Map::empty(),
            category_channels: Map::empty(),
            current_user: None,
            emojis: Map::empty(),
            groups: Map::empty(),
            guilds: Map::empty(),
            members: Map::empty(),
            messages: Map::empty(),
            presences: Map::empty(),
            private_channels: Map::empty(),
            roles: Map::empty(),
            text_channels: Map::empty(),
            users: Map::empty(),
            voice_channels: Map::empty(),
            voice_states: Map::empty(),
        }
    }
}

/// Which of the repositories of a backend store what is upserted.
pub struct CachePolicy {
    pub attachments: bool,
    pub category_channels: bool,
    pub current_user: bool,
    pub emojis: bool,
    pub groups: bool,
    pub guilds: bool,
    pub members: bool,
    pub messages: bool,
    pub presences: bool,
    pub private_channels: bool,
    pub roles: bool,
    pub text_channels: bool,
    pub users: bool,
    pub voice_channels: bool,
    pub voice_states: bool,
}

/// A storage engine: it makes the repository of each entity type.
///
/// A repository that a backend makes holds what the backend has stored of
/// its entity type: nothing, for a backend that starts empty. Every
/// repository but that of the messages keeps what was upserted until it is
/// removed; the repository of the messages may bound what it holds.
pub trait Backend: Sized {
    /// The error of the operations of every repository of the backend.
    type Error;

    type AttachmentRepository: AttachmentRepository<Self::Error>;

    type CategoryChannelRepository: CategoryChannelRepository<Self::Error>;

    type CurrentUserRepository: CurrentUserRepository<Self::Error>;

    type EmojiRepository: EmojiRepository<Self::Error>;

    type GroupRepository: GroupRepository<Self::Error>;

    type GuildRepository: GuildRepository<Self::Error>;

    type MemberRepository: MemberRepository<Self::Error>;

    type MessageRepository: MessageRepository<Self::Error>;

    type PresenceRepository: PresenceRepository<Self::Error>;

    type PrivateChannelRepository: PrivateChannelRepository<Self::Error>;

    type RoleRepository: RoleRepository<Self::Error>;

    type TextChannelRepository: TextChannelRepository<Self::Error>;

    type UserRepository: UserRepository<Self::Error>;

    type VoiceChannelRepository: VoiceChannelRepository<Self::Error>;

    type VoiceStateRepository: VoiceStateRepository<Self::Error>;

    /// Whether no operation of any repository of the backend ever fails.
    spec fn reliable() -> bool;

    /// Which of the repositories that the backend makes store what is
    /// upserted.
    spec fn policy(&self) -> CachePolicy;

    /// What the repositories that the backend makes hold when they are
    /// made.
    spec fn stored(&self) -> CacheView;

    /// The repositories of a reliable backend are reliable, and every
    /// repository but that of the messages keeps all.
    proof fn lemma_repositories()
        ensures
            Self::reliable() ==> {
                &&& <Self::AttachmentRepository as Repository<AttachmentEntity, Self::Error>>::reliable()
                &&& <Self::CategoryChannelRepository as Repository<CategoryChannelEntity, Self::Error>>::reliable()
                &&& <Self::CurrentUserRepository as SingleEntityRepository<
                    CurrentUserEntity,
                    Self::Error,
                >>::reliable()
                &&& <Self::EmojiRepository as Repository<EmojiEntity, Self::Error>>::reliable()
                &&& <Self::GroupRepository as Repository<GroupEntity, Self::Error>>::reliable()
                &&& <Self::GuildRepository as Repository<GuildEntity, Self::Error>>::reliable()
                &&& <Self::MemberRepository as Repository<MemberEntity, Self::Error>>::reliable()
                &&& <Self::MessageRepository as Repository<MessageEntity, Self::Error>>::reliable()
                &&& <Self::PresenceRepository as Repository<PresenceEntity, Self::Error>>::reliable()
                &&& <Self::PrivateChannelRepository as Repository<PrivateChannelEntity, Self::Error>>::reliable()
                &&& <Self::RoleRepository as Repository<RoleEntity, Self::Error>>::reliable()
                &&& <Self::TextChannelRepository as Repository<TextChannelEntity, Self::Error>>::reliable()
                &&& <Self::UserRepository as Repository<UserEntity, Self::Error>>::reliable()
                &&& <Self::VoiceChannelRepository as Repository<VoiceChannelEntity, Self::Error>>::reliable()
                &&& <Self::VoiceStateRepository as Repository<VoiceStateEntity, Self::Error>>::reliable()
            },
            <Self::AttachmentRepository as Repository<AttachmentEntity, Self::Error>>::keeps_all(),
            <Self::CategoryChannelRepository as Repository<CategoryChannelEntity, Self::Error>>::keeps_all(),
            <Self::EmojiRepository as Repository<EmojiEntity, Self::Error>>::keeps_all(),
            <Self::GroupRepository as Repository<GroupEntity, Self::Error>>::keeps_all(),
            <Self::GuildRepository as Repository<GuildEntity, Self::Error>>::keeps_all(),
            <Self::MemberRepository as Repository<MemberEntity, Self::Error>>::keeps_all(),
            <Self::PresenceRepository as Repository<PresenceEntity, Self::Error>>::keeps_all(),
            <Self::PrivateChannelRepository as Repository<PrivateChannelEntity, Self::Error>>::keeps_all(),
            <Self::RoleRepository as Repository<RoleEntity, Self::Error>>::keeps_all(),
            <Self::TextChannelRepository as Repository<TextChannelEntity, Self::Error>>::keeps_all(),
            <Self::UserRepository as Repository<UserEntity, Self::Error>>::keeps_all(),
            <Self::VoiceChannelRepository as Repository<VoiceChannelEntity, Self::Error>>::keeps_all(),
            <Self::VoiceStateRepository as Repository<VoiceStateEntity, Self::Error>>::keeps_all(),
    ;

    /// Return a new instance of the backend's attachment repository
    /// implementation.
    fn attachments(&self) -> (repo: Self::AttachmentRepository)
        ensures
            repo.wf(),
            repo.entries() == self.stored().attachments,
            repo.accepts() == self.policy().attachments,
    ;

    /// Return a new instance of the backend's guild category channel
    /// repository implementation.
    fn category_channels(&self) -> (repo: Self::CategoryChannelRepository)
        ensures
            repo.wf(),
            repo.entries() == self.stored().category_channels,
            repo.accepts() == self.policy().category_channels,
    ;

    /// Return a new instance of the backend's current user repository
    /// implementation.
    fn current_user(&self) -> (repo: Self::CurrentUserRepository)
        ensures
            repo.wf(),
            repo.entity() == self.stored().current_user,
            repo.accepts() == self.policy().current_user,
    ;

    /// Return a new instance of the backend's emoji repository
    /// implementation.
    fn emojis(&self) -> (repo: Self::EmojiRepository)
        ensures
            repo.wf(),
            repo.entries() == self.stored().emojis,
            repo.accepts() == self.policy().emojis,
    ;

    /// Return a new instance of the backend's group repository
    /// implementation.
    fn groups(&self) -> (repo: Self::GroupRepository)
        ensures
            repo.wf(),
            repo.entries() == self.stored().groups,
            repo.accepts() == self.policy().groups,
    ;

    /// Return a new instance of the backend's guild repository
    /// implementation.
    fn guilds(&self) -> (repo: Self::GuildRepository)
        ensures
            repo.wf(),
            repo.entries() == self.stored().guilds,
            repo.accepts() == self.policy().guilds,
    ;

    /// Return a new instance of the backend's member repository
    /// implementation.
    fn members(&self) -> (repo: Self::MemberRepository)
        ensures
            repo.wf(),
            repo.entries() == self.stored().members,
            repo.accepts() == self.policy().members,
    ;

    /// Return a new instance of the backend's message repository
    /// implementation.
    fn messages(&self) -> (repo: Self::MessageRepository)
        ensures
            repo.wf(),
            repo.entries() == self.stored().messages,
            repo.accepts() == self.policy().messages,
    ;

    /// Return a new instance of the backend's presence repository
    /// implementation.
    fn presences(&self) -> (repo: Self::PresenceRepository)
        ensures
            repo.wf(),
            repo.entries() == self.stored().presences,
            repo.accepts() == self.policy().presences,
    ;

    /// Return a new instance of the backend's private channel repository
    /// implementation.
    fn private_channels(&self) -> (repo: Self::PrivateChannelRepository)
        ensures
            repo.wf(),
            repo.entries() == self.stored().private_channels,
            repo.accepts() == self.policy().private_channels,
    ;

    /// Return a new instance of the backend's role repository
    /// implementation.
    fn roles(&self) -> (repo: Self::RoleRepository)
        ensures
            repo.wf(),
            repo.entries() == self.stored().roles,
            repo.accepts() == self.policy().roles,
    ;

    /// Return a new instance of the backend's guild text channel repository
    /// implementation.
    fn text_channels(&self) -> (repo: Self::TextChannelRepository)
        ensures
            repo.wf(),
            repo.entries() == self.stored().text_channels,
            repo.accepts() == self.policy().text_channels,
    ;

    /// Return a new instance of the backend's user repository
    /// implementation.
    fn users(&self) -> (repo: Self::UserRepository)
        ensures
            repo.wf(),
            repo.entries() == self.stored().users,
            repo.accepts() == self.policy().users,
    ;

    /// Return a new instance of the backend's voice channel repository
    /// implementation.
    fn voice_channels(&self) -> (repo: Self::VoiceChannelRepository)
        ensures
            repo.wf(),
            repo.entries() == self.stored().voice_channels,
            repo.accepts() == self.policy().voice_channels,
    ;

    /// Return a new instance of the backend's voice state repository
    /// implementation.
    fn voice_states(&self) -> (repo: Self::VoiceStateRepository)
        ensures
            repo.wf(),
            repo.entries() == self.stored().voice_states,
            repo.accepts() == self.policy().voice_states,
    ;
}

} // verus!
