//! The payloads of the gateway events, and the events themselves.

use vstd::prelude::*;
use crate::id::{ChannelId, GuildId, MessageId, RoleId, UserId};
use crate::model::channel::{Attachment, Channel, Message};
use crate::model::guild::{Emoji, Guild, Member, PartialGuild, Role};
use crate::model::presence::UserOrId;
use crate::model::user::{CurrentUser, User};
use crate::model::voice::VoiceState;
use twilight_model::channel::embed::Embed;
use twilight_model::channel::message::MessageType;
use twilight_model::gateway::presence::{Activity, ClientStatus, Status};

verus! {

/// A channel was created.
#[derive(Clone, Debug, PartialEq, Eq)]
pub struct ChannelCreate(pub Channel);

/// A channel was deleted.
#[derive(Clone, Debug, PartialEq, Eq)]
pub struct ChannelDelete(pub Channel);

/// A channel changed.
#[derive(Clone, Debug, PartialEq, Eq)]
pub struct ChannelUpdate(pub Channel);

/// A message was pinned or unpinned in a channel.
#[derive(Clone, Debug, PartialEq, Eq)]
pub struct ChannelPinsUpdate {
    pub channel_id: ChannelId,
    pub guild_id: Option<GuildId>,
    pub last_pin_timestamp: Option<String>,
}

/// A guild became available, or the current user joined it: the guild
/// arrives whole.
#[derive(Clone, Debug, PartialEq, Eq)]
pub struct GuildCreate(pub Guild);

/// A guild became unavailable, or the current user left it or was removed
/// from it.
#[derive(Clone, Debug, PartialEq, Eq)]
pub struct GuildDelete {
    pub id: GuildId,
    pub unavailable: bool,
}

/// The emojis of a guild changed.
#[derive(Clone, Debug, PartialEq, Eq)]
pub struct GuildEmojisUpdate {
    pub emojis: Vec<Emoji>,
    pub guild_id: GuildId,
}

/// A guild changed.
#[derive(Clone, Debug, PartialEq, Eq)]
pub struct GuildUpdate(pub PartialGuild);

/// A user joined a guild.
#[derive(Clone, Debug, PartialEq, Eq)]
pub struct MemberAdd(pub Member);

/// A part of the members of a guild.
#[derive(Clone, Debug, PartialEq, Eq)]
pub struct MemberChunk {
    pub guild_id: GuildId,
    pub members: Vec<Member>,
}

/// A user left a guild.
#[derive(Clone, Debug, PartialEq, Eq)]
pub struct MemberRemove {
    pub guild_id: GuildId,
    pub user: User,
}

/// A member of a guild changed.
#[derive(Clone, Debug, PartialEq, Eq)]
pub struct MemberUpdate {
    pub guild_id: GuildId,
    pub joined_at: String,
    pub nick: Option<String>,
    pub premium_since: Option<String>,
    pub roles: Vec<RoleId>,
    pub user: User,
}

/// A message was sent.
#[derive(Clone, Debug, PartialEq, Eq)]
pub struct MessageCreate(pub Message);

/// A message was deleted.
#[derive(Clone, Debug, PartialEq, Eq)]
pub struct MessageDelete {
    pub channel_id: ChannelId,
    pub guild_id: Option<GuildId>,
    pub id: MessageId,
}

/// Several messages of one channel were deleted.
#[derive(Clone, Debug, PartialEq, Eq)]
pub struct MessageDeleteBulk {
    pub channel_id: ChannelId,
    pub guild_id: Option<GuildId>,
    pub ids: Vec<MessageId>,
}

/// A message changed. Only the fields that changed are present.
#[derive(Clone, Debug, PartialEq, Eq)]
pub struct MessageUpdate {
    pub attachments: Option<Vec<Attachment>>,
    pub author: Option<User>,
    pub channel_id: ChannelId,
    pub content: Option<String>,
    pub edited_timestamp: Option<String>,
    pub embeds: Option<Vec<Embed>>,
    pub guild_id: Option<GuildId>,
    pub id: MessageId,
    pub kind: Option<MessageType>,
    pub mention_everyone: Option<bool>,
    pub mention_roles: Option<Vec<RoleId>>,
    pub mentions: Option<Vec<UserId>>,
    pub pinned: Option<bool>,
    pub timestamp: Option<String>,
    pub tts: Option<bool>,
}

/// The presence of a user in a guild changed.
#[derive(Clone, Debug, PartialEq, Eq)]
pub struct PresenceUpdate {
    pub activities: Vec<Activity>,
    pub client_status: ClientStatus,
    pub game: Option<Activity>,
    pub guild_id: GuildId,
    pub status: Status,
    pub user: UserOrId,
}

/// The gateway session is ready.
#[derive(Clone, Debug, PartialEq, Eq)]
pub struct Ready {
    pub user: CurrentUser,
}

/// A role was added to a guild.
#[derive(Clone, Debug, PartialEq, Eq)]
pub struct RoleCreate {
    pub guild_id: GuildId,
    pub role: Role,
}

/// A role was removed from a guild.
#[derive(Clone, Debug, PartialEq, Eq)]
pub struct RoleDelete {
    pub guild_id: GuildId,
    pub role_id: RoleId,
}

/// A role of a guild changed.
#[derive(Clone, Debug, PartialEq, Eq)]
pub struct RoleUpdate {
    pub guild_id: GuildId,
    pub role: Role,
}

/// The current user changed.
#[derive(Clone, Debug, PartialEq, Eq)]
pub struct UserUpdate(pub CurrentUser);

/// The voice state of a user changed.
#[derive(Clone, Debug, PartialEq, Eq)]
pub struct VoiceStateUpdate(pub VoiceState);

/// An event of the gateway.
///
/// The kinds that carry nothing to cache have no payload here.
#[derive(Clone, Debug, PartialEq, Eq)]
pub enum Event {
    BanAdd,
    BanRemove,
    ChannelCreate(ChannelCreate),
    ChannelDelete(ChannelDelete),
    ChannelPinsUpdate(ChannelPinsUpdate),
    ChannelUpdate(ChannelUpdate),
    GatewayHeartbeat,
    GatewayHeartbeatAck,
    GatewayHello,
    GatewayInvalidateSession,
    GatewayReconnect,
    GiftCodeUpdate,
    GuildCreate(GuildCreate),
    GuildDelete(GuildDelete),
    GuildEmojisUpdate(GuildEmojisUpdate),
    GuildIntegrationsUpdate,
    GuildUpdate(GuildUpdate),
    InviteCreate,
    InviteDelete,
    MemberAdd(MemberAdd),
    MemberRemove(MemberRemove),
    MemberUpdate(MemberUpdate),
    MemberChunk(MemberChunk),
    MessageCreate(MessageCreate),
    MessageDelete(MessageDelete),
    MessageDeleteBulk(MessageDeleteBulk),
    MessageUpdate(MessageUpdate),
    PresenceUpdate(PresenceUpdate),
    PresencesReplace,
    ReactionAdd,
    ReactionRemove,
    ReactionRemoveAll,
    ReactionRemoveEmoji,
    Ready(Ready),
    Resumed,
    RoleCreate(RoleCreate),
    RoleDelete(RoleDelete),
    RoleUpdate(RoleUpdate),
    ShardConnected,
    ShardConnecting,
    ShardDisconnected,
    ShardIdentifying,
    ShardPayload,
    ShardReconnecting,
    ShardResuming,
    TypingStart,
    UnavailableGuild,
    UserUpdate(UserUpdate),
    VoiceServerUpdate,
    VoiceStateUpdate(VoiceStateUpdate),
    WebhooksUpdate,
}

} // verus!
