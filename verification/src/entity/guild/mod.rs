//! Entities related to and within guilds.

pub mod emoji;
pub mod member;
pub mod role;

pub use self::emoji::EmojiEntity;
pub use self::member::MemberEntity;
pub use self::role::RoleEntity;

use vstd::prelude::*;
use crate::entity::Entity;
use crate::entity::channel::{find_guild_channel, guild_channel_of, GuildChannelEntity};
use crate::entity::channel::category_channel::CategoryChannelEntity;
use crate::entity::channel::text_channel::TextChannelEntity;
use crate::entity::channel::voice_channel::VoiceChannelEntity;
use crate::entity::gateway::presence::PresenceEntity;
use crate::entity::user::UserEntity;
use crate::entity::voice::state::VoiceStateEntity;
use crate::id::{ApplicationId, ChannelId, EmojiId, GuildId, RoleId, UserId};
use crate::model::channel::GuildChannel;
use crate::model::guild::{Emoji, Guild, Member, PartialGuild, Role};
use crate::model::presence::Presence;
use crate::model::voice::VoiceState;
use crate::repository::{is_guild_listing, Repository};
use crate::utils::{is_guild_resolution, list_in_guild, map_each, relation_and_then, relation_map};
use twilight_model::guild::{
    DefaultMessageNotificationLevel, ExplicitContentFilter, MfaLevel, Permissions, PremiumTier,
    SystemChannelFlags, VerificationLevel,
};

verus! {

/// A guild, without what is in it.
#[derive(Clone, Debug, PartialEq, Eq)]
pub struct GuildEntity {
    pub afk_channel_id: Option<ChannelId>,
    pub afk_timeout: u64,
    pub application_id: Option<ApplicationId>,
    pub approximate_member_count: Option<u64>,
    pub approximate_presence_count: Option<u64>,
    pub banner: Option<String>,
    pub default_message_notifications: DefaultMessageNotificationLevel,
    pub description: Option<String>,
    pub discovery_splash: Option<String>,
    pub explicit_content_filter: ExplicitContentFilter,
    pub features: Vec<String>,
    pub icon: Option<String>,
    pub id: GuildId,
    pub joined_at: Option<String>,
    pub large: bool,
    pub lazy: Option<bool>,
    pub max_members: Option<u64>,
    pub max_presences: Option<u64>,
    pub max_video_channel_users: Option<u64>,
    pub member_count: Option<u64>,
    pub mfa_level: MfaLevel,
    pub name: String,
    pub owner_id: UserId,
    pub owner: Option<bool>,
    pub permissions: Option<Permissions>,
    pub preferred_locale: String,
    pub premium_subscription_count: Option<u64>,
    pub premium_tier: PremiumTier,
    pub region: String,
    pub rules_channel_id: Option<ChannelId>,
    pub splash: Option<String>,
    pub system_channel_flags: SystemChannelFlags,
    pub system_channel_id: Option<ChannelId>,
    pub unavailable: bool,
    pub vanity_url_code: Option<String>,
    pub verification_level: VerificationLevel,
    pub widget_channel_id: Option<ChannelId>,
    pub widget_enabled: Option<bool>,
}

/// Everything that a guild arrives with besides its own record.
#[derive(Clone, Debug, PartialEq, Eq)]
pub struct GuildChildren {
    pub channels: Vec<GuildChannel>,
    pub emojis: Vec<Emoji>,
    pub members: Vec<Member>,
    pub presences: Vec<Presence>,
    pub roles: Vec<Role>,
    pub voice_states: Vec<VoiceState>,
}

impl GuildEntity {
    /// The entity that [`GuildEntity::from`] makes.
    pub open spec fn spec_from(guild: Guild) -> GuildEntity {
        GuildEntity {
            afk_channel_id: guild.afk_channel_id,
            afk_timeout: guild.afk_timeout,
            application_id: guild.application_id,
            approximate_member_count: guild.approximate_member_count,
            approximate_presence_count: guild.approximate_presence_count,
            banner: guild.banner,
            default_message_notifications: guild.default_message_notifications,
            description: guild.description,
            discovery_splash: guild.discovery_splash,
            explicit_content_filter: guild.explicit_content_filter,
            features: guild.features,
            icon: guild.icon,
            id: guild.id,
            joined_at: guild.joined_at,
            large: guild.large,
            lazy: guild.lazy,
            max_members: guild.max_members,
            max_presences: guild.max_presences,
            max_video_channel_users: guild.max_video_channel_users,
            member_count: guild.member_count,
            mfa_level: guild.mfa_level,
            name: guild.name,
            owner_id: guild.owner_id,
            owner: guild.owner,
            permissions: guild.permissions,
            preferred_locale: guild.preferred_locale,
            premium_subscription_count: guild.premium_subscription_count,
            premium_tier: guild.premium_tier,
            region: guild.region,
            rules_channel_id: guild.rules_channel_id,
            splash: guild.splash,
            system_channel_flags: guild.system_channel_flags,
            system_channel_id: guild.system_channel_id,
            unavailable: guild.unavailable,
            vanity_url_code: guild.vanity_url_code,
            verification_level: guild.verification_level,
            widget_channel_id: guild.widget_channel_id,
            widget_enabled: guild.widget_enabled,
        }
    }

    /// What [`GuildEntity::with_children`] hands out beside the entity.
    pub open spec fn spec_children(guild: Guild) -> GuildChildren {
        GuildChildren {
            channels: guild.channels,
            emojis: guild.emojis,
            members: guild.members,
            presences: guild.presences,
            roles: guild.roles,
            voice_states: guild.voice_states,
        }
    }

    /// The entity that [`GuildEntity::update`] makes: an optional field is
    /// that of the update where it has one, and else what was stored; any
    /// other field that an update carries is that of the update; what an
    /// update does not carry is what was stored.
    pub open spec fn spec_update(stored: GuildEntity, partial: PartialGuild) -> GuildEntity {
        GuildEntity {
            afk_channel_id: match partial.afk_channel_id {
                Some(afk_channel_id) => Some(afk_channel_id),
                None => stored.afk_channel_id,
            },
            afk_timeout: partial.afk_timeout,
            application_id: match partial.application_id {
                Some(application_id) => Some(application_id),
                None => stored.application_id,
            },
            approximate_member_count: stored.approximate_member_count,
            approximate_presence_count: stored.approximate_presence_count,
            banner: match partial.banner {
                Some(banner) => Some(banner),
                None => stored.banner,
            },
            default_message_notifications: partial.default_message_notifications,
            description: match partial.description {
                Some(description) => Some(description),
                None => stored.description,
            },
            discovery_splash: match partial.discovery_splash {
                Some(discovery_splash) => Some(discovery_splash),
                None => stored.discovery_splash,
            },
            explicit_content_filter: partial.explicit_content_filter,
            features: partial.features,
            icon: match partial.icon {
                Some(icon) => Some(icon),
                None => stored.icon,
            },
            id: partial.id,
            joined_at: stored.joined_at,
            large: stored.large,
            lazy: stored.lazy,
            max_members: match partial.max_members {
                Some(max_members) => Some(max_members),
                None => stored.max_members,
            },
            max_presences: match partial.max_presences {
                Some(max_presences) => Some(max_presences),
                None => stored.max_presences,
            },
            max_video_channel_users: stored.max_video_channel_users,
            member_count: match partial.member_count {
                Some(member_count) => Some(member_count),
                None => stored.member_count,
            },
            mfa_level: partial.mfa_level,
            name: partial.name,
            owner_id: partial.owner_id,
            owner: match partial.owner {
                Some(owner) => Some(owner),
                None => stored.owner,
            },
            permissions: match partial.permissions {
                Some(permissions) => Some(permissions),
                None => stored.permissions,
            },
            preferred_locale: partial.preferred_locale,
            premium_subscription_count: match partial.premium_subscription_count {
                Some(premium_subscription_count) => Some(premium_subscription_count),
                None => stored.premium_subscription_count,
            },
            premium_tier: partial.premium_tier,
            region: partial.region,
            rules_channel_id: match partial.rules_channel_id {
                Some(rules_channel_id) => Some(rules_channel_id),
                None => stored.rules_channel_id,
            },
            splash: match partial.splash {
                Some(splash) => Some(splash),
                None => stored.splash,
            },
            system_channel_flags: partial.system_channel_flags,
            system_channel_id: match partial.system_channel_id {
                Some(system_channel_id) => Some(system_channel_id),
                None => stored.system_channel_id,
            },
            unavailable: stored.unavailable,
            vanity_url_code: match partial.vanity_url_code {
                Some(vanity_url_code) => Some(vanity_url_code),
                None => stored.vanity_url_code,
            },
            verification_level: partial.verification_level,
            widget_channel_id: match partial.widget_channel_id {
                Some(widget_channel_id) => Some(widget_channel_id),
                None => stored.widget_channel_id,
            },
            widget_enabled: match partial.widget_enabled {
                Some(widget_enabled) => Some(widget_enabled),
                None => stored.widget_enabled,
            },
        }
    }

    /// Part a guild into its own record and what the guild arrived with.
    pub fn with_children(guild: Guild) -> (made: (GuildEntity, GuildChildren))
        ensures
            made.0 == Self::spec_from(guild),
            made.1 == Self::spec_children(guild),
    {
        let entity = GuildEntity {
            afk_channel_id: guild.afk_channel_id,
            afk_timeout: guild.afk_timeout,
            application_id: guild.application_id,
            approximate_member_count: guild.approximate_member_count,
            approximate_presence_count: guild.approximate_presence_count,
            banner: guild.banner,
            default_message_notifications: guild.default_message_notifications,
            description: guild.description,
            discovery_splash: guild.discovery_splash,
            explicit_content_filter: guild.explicit_content_filter,
            features: guild.features,
            icon: guild.icon,
            id: guild.id,
            joined_at: guild.joined_at,
            large: guild.large,
            lazy: guild.lazy,
            max_members: guild.max_members,
            max_presences: guild.max_presences,
            max_video_channel_users: guild.max_video_channel_users,
            member_count: guild.member_count,
            mfa_level: guild.mfa_level,
            name: guild.name,
            owner_id: guild.owner_id,
            owner: guild.owner,
            permissions: guild.permissions,
            preferred_locale: guild.preferred_locale,
            premium_subscription_count: guild.premium_subscription_count,
            premium_tier: guild.premium_tier,
            region: guild.region,
            rules_channel_id: guild.rules_channel_id,
            splash: guild.splash,
            system_channel_flags: guild.system_channel_flags,
            system_channel_id: guild.system_channel_id,
            unavailable: guild.unavailable,
            vanity_url_code: guild.vanity_url_code,
            verification_level: guild.verification_level,
            widget_channel_id: guild.widget_channel_id,
            widget_enabled: guild.widget_enabled,
        };
        let children = GuildChildren {
            channels: guild.channels,
            emojis: guild.emojis,
            members: guild.members,
            presences: guild.presences,
            roles: guild.roles,
            voice_states: guild.voice_states,
        };
        (entity, children)
    }

    /// Make the entity of a guild.
    pub fn from(guild: Guild) -> (entity: GuildEntity)
        ensures
            entity == Self::spec_from(guild),
    {
        Self::with_children(guild).0
    }

    /// Lay the fields that an update carries over the stored guild.
    pub fn update(self, partial: PartialGuild) -> (entity: GuildEntity)
        ensures
            entity == Self::spec_update(self, partial),
    {
        GuildEntity {
            afk_channel_id: match partial.afk_channel_id {
                Some(afk_channel_id) => Some(afk_channel_id),
                None => self.afk_channel_id,
            },
            afk_timeout: partial.afk_timeout,
            application_id: match partial.application_id {
                Some(application_id) => Some(application_id),
                None => self.application_id,
            },
            approximate_member_count: self.approximate_member_count,
            approximate_presence_count: self.approximate_presence_count,
            banner: match partial.banner {
                Some(banner) => Some(banner),
                None => self.banner,
            },
            default_message_notifications: partial.default_message_notifications,
            description: match partial.description {
                Some(description) => Some(description),
                None => self.description,
            },
            discovery_splash: match partial.discovery_splash {
                Some(discovery_splash) => Some(discovery_splash),
                None => self.discovery_splash,
            },
            explicit_content_filter: partial.explicit_content_filter,
            features: partial.features,
            icon: match partial.icon {
                Some(icon) => Some(icon),
                None => self.icon,
            },
            id: partial.id,
            joined_at: self.joined_at,
            large: self.large,
            lazy: self.lazy,
            max_members: match partial.max_members {
                Some(max_members) => Some(max_members),
                None => self.max_members,
            },
            max_presences: match partial.max_presences {
                Some(max_presences) => Some(max_presences),
                None => self.max_presences,
            },
            max_video_channel_users: self.max_video_channel_users,
            member_count: match partial.member_count {
                Some(member_count) => Some(member_count),
                None => self.member_count,
            },
            mfa_level: partial.mfa_level,
            name: partial.name,
            owner_id: partial.owner_id,
            owner: match partial.owner {
                Some(owner) => Some(owner),
                None => self.owner,
            },
            permissions: match partial.permissions {
                Some(permissions) => Some(permissions),
                None => self.permissions,
            },
            preferred_locale: partial.preferred_locale,
            premium_subscription_count: match partial.premium_subscription_count {
                Some(premium_subscription_count) => Some(premium_subscription_count),
                None => self.premium_subscription_count,
            },
            premium_tier: partial.premium_tier,
            region: partial.region,
            rules_channel_id: match partial.rules_channel_id {
                Some(rules_channel_id) => Some(rules_channel_id),
                None => self.rules_channel_id,
            },
            splash: match partial.splash {
                Some(splash) => Some(splash),
                None => self.splash,
            },
            system_channel_flags: partial.system_channel_flags,
            system_channel_id: match partial.system_channel_id {
                Some(system_channel_id) => Some(system_channel_id),
                None => self.system_channel_id,
            },
            unavailable: self.unavailable,
            vanity_url_code: match partial.vanity_url_code {
                Some(vanity_url_code) => Some(vanity_url_code),
                None => self.vanity_url_code,
            },
            verification_level: partial.verification_level,
            widget_channel_id: match partial.widget_channel_id {
                Some(widget_channel_id) => Some(widget_channel_id),
                None => self.widget_channel_id,
            },
            widget_enabled: match partial.widget_enabled {
                Some(widget_enabled) => Some(widget_enabled),
                None => self.widget_enabled,
            },
        }
    }

    /// The stored guild with another availability.
    pub open spec fn spec_with_unavailable(self, unavailable: bool) -> GuildEntity {
        GuildEntity { unavailable, ..self }
    }

    /// Set the availability of the stored guild, and nothing else.
    pub fn with_unavailable(self, unavailable: bool) -> (entity: GuildEntity)
        ensures
            entity == self.spec_with_unavailable(unavailable),
    {
        GuildEntity { unavailable, ..self }
    }
}

impl Entity for GuildEntity {
    type Id = GuildId;

    open spec fn spec_id(&self) -> GuildId {
        self.id
    }

    open spec fn spec_scope(&self) -> Option<GuildId> {
        None
    }

    /// Return the guild's ID.
    fn id(&self) -> (id: GuildId) {
        self.id
    }

    fn scope(&self) -> (guild_id: Option<GuildId>) {
        None
    }
}

/// The user ids of ids that are pairs of a guild id and a user id, in their
/// order.
pub open spec fn user_halves_of(ids: Seq<(GuildId, UserId)>) -> Seq<UserId> {
    ids.map_values(|id: (GuildId, UserId)| id.1)
}

/// Return the user ids of ids that are pairs of a guild id and a user id.
pub fn user_halves(ids: Vec<(GuildId, UserId)>) -> (halves: Vec<UserId>)
    ensures
        halves@ == user_halves_of(ids@),
{
    let mut halves: Vec<UserId> = Vec::new();
    let mut i: usize = 0;
    while i < ids.len()
        invariant
            i <= ids.len(),
            halves@ == user_halves_of(ids@.take(i as int)),
        decreases ids.len() - i,
    {
        halves.push(ids[i].1);
        proof {
            assert(ids@.take(i + 1) =~= ids@.take(i as int).push(ids@[i as int]));
            assert(halves@ =~= user_halves_of(ids@.take(i + 1)));
        }
        i += 1;
    }
    proof {
        assert(ids@.take(ids.len() as int) =~= ids@);
    }
    halves
}

/// Whether `ids` holds the user of each entity that is listed under the
/// guild once, and nothing else, where the entities are kept by guild and
/// user.
pub open spec fn is_user_listing<E: Entity<Id = (GuildId, UserId)>>(
    entries: Map<(GuildId, UserId), E>,
    guild_id: GuildId,
    ids: Seq<UserId>,
) -> bool {
    exists|full: Seq<(GuildId, UserId)>| #[trigger]
        is_guild_listing(entries, guild_id, full) && ids == user_halves_of(full)
}

/// List the users of the entities that are listed under a guild, where the
/// entities are kept by guild and user.
pub fn users_in_guild<E: Entity<Id = (GuildId, UserId)>, Error, R: Repository<E, Error>>(
    repo: &R,
    guild_id: GuildId,
) -> (found: Result<Vec<UserId>, Error>)
    requires
        repo.wf(),
    ensures
        R::reliable() ==> found is Ok,
        found matches Ok(ids) ==> is_user_listing(repo.entries(), guild_id, ids@),
{
    match repo.ids_in_guild(guild_id) {
        Ok(full) => {
            proof {
                assert(is_guild_listing(repo.entries(), guild_id, full@));
            }
            Ok(user_halves(full))
        },
        Err(why) => Err(why),
    }
}

/// The channels of a guild of one kind as channels of a guild of any kind.
pub open spec fn as_text_channels<Error>(list: Seq<Result<TextChannelEntity, Error>>) -> Seq<
    Result<GuildChannelEntity, Error>,
> {
    list.map_values(
        |item: Result<TextChannelEntity, Error>|
            match item {
                Ok(channel) => Ok(GuildChannelEntity::Text(channel)),
                Err(why) => Err(why),
            },
    )
}

/// The channels of a guild of one kind as channels of a guild of any kind.
pub open spec fn as_voice_channels<Error>(list: Seq<Result<VoiceChannelEntity, Error>>) -> Seq<
    Result<GuildChannelEntity, Error>,
> {
    list.map_values(
        |item: Result<VoiceChannelEntity, Error>|
            match item {
                Ok(channel) => Ok(GuildChannelEntity::Voice(channel)),
                Err(why) => Err(why),
            },
    )
}

/// The channels of a guild of one kind as channels of a guild of any kind.
pub open spec fn as_category_channels<Error>(list: Seq<Result<CategoryChannelEntity, Error>>) -> Seq<
    Result<GuildChannelEntity, Error>,
> {
    list.map_values(
        |item: Result<CategoryChannelEntity, Error>|
            match item {
                Ok(channel) => Ok(GuildChannelEntity::Category(channel)),
                Err(why) => Err(why),
            },
    )
}

/// Repository to work with guilds and their associated entities.
pub trait GuildRepository<Error>: Repository<GuildEntity, Error> {
    /// Retrieve the AFK voice channel associated with a guild.
    /// 
    /// `None` is returned if the AFK channel is not configured or is not present
    /// in the cache.
    fn afk_channel<R: Repository<VoiceChannelEntity, Error>>(
        &self,
        voice_channels: &R,
        guild_id: GuildId,
    ) -> (found: Result<Option<VoiceChannelEntity>, Error>)
        requires
            self.wf(),
            voice_channels.wf(),
        ensures
            Self::reliable() && R::reliable() ==> found is Ok,
            found matches Ok(entity) ==> entity == (match self.entries().get(guild_id) {
                Some(local) => match local.afk_channel_id {
                    Some(foreign_id) => voice_channels.entries().get(foreign_id),
                    None => None,
                },
                None => None,
            }),
    {
        let foreign_id = |local: GuildEntity| -> (id: Option<ChannelId>)
            ensures
                id == local.afk_channel_id,
        {
            local.afk_channel_id
        };
        relation_and_then(self, voice_channels, guild_id, foreign_id)
    }

    /// Retrieve the IDs of the channels within a guild: those of its text
    /// channels, then of its voice channels, then of its category channels.
    fn channel_ids<
        T: Repository<TextChannelEntity, Error>,
        V: Repository<VoiceChannelEntity, Error>,
        C: Repository<CategoryChannelEntity, Error>,
    >(
        &self,
        text_channels: &T,
        voice_channels: &V,
        category_channels: &C,
        guild_id: GuildId,
    ) -> (found: Result<Vec<ChannelId>, Error>)
        requires
            text_channels.wf(),
            voice_channels.wf(),
            category_channels.wf(),
        ensures
            T::reliable() && V::reliable() && C::reliable() ==> found is Ok,
            found matches Ok(ids) ==> exists|text: Seq<ChannelId>, voice: Seq<ChannelId>, category: Seq<ChannelId>|
                #![trigger text + voice + category]
                {
                    &&& is_guild_listing(text_channels.entries(), guild_id, text)
                    &&& is_guild_listing(voice_channels.entries(), guild_id, voice)
                    &&& is_guild_listing(category_channels.entries(), guild_id, category)
                    &&& ids@ == text + voice + category
                },
    {
        let mut ids = match text_channels.ids_in_guild(guild_id) {
            Ok(ids) => ids,
            Err(why) => {
                return Err(why);
            },
        };
        let mut voice = match voice_channels.ids_in_guild(guild_id) {
            Ok(ids) => ids,
            Err(why) => {
                return Err(why);
            },
        };
        let mut category = match category_channels.ids_in_guild(guild_id) {
            Ok(ids) => ids,
            Err(why) => {
                return Err(why);
            },
        };
        let ghost text = ids@;
        let ghost voices = voice@;
        let ghost categories = category@;
        ids.append(&mut voice);
        ids.append(&mut category);
        proof {
            assert(ids@ == text + voices + categories);
        }
        Ok(ids)
    }

    /// Retrieve the channels within a guild: its text channels, then its
    /// voice channels, then its category channels.
    fn channels<
        T: Repository<TextChannelEntity, Error>,
        V: Repository<VoiceChannelEntity, Error>,
        C: Repository<CategoryChannelEntity, Error>,
    >(
        &self,
        text_channels: &T,
        voice_channels: &V,
        category_channels: &C,
        guild_id: GuildId,
    ) -> (found: Result<Vec<Result<GuildChannelEntity, Error>>, Error>)
        requires
            text_channels.wf(),
            voice_channels.wf(),
            category_channels.wf(),
        ensures
            T::reliable() && V::reliable() && C::reliable() ==> found is Ok,
            found matches Ok(list) ==> {
                &&& exists|
                    text: Seq<Result<TextChannelEntity, Error>>,
                    voice: Seq<Result<VoiceChannelEntity, Error>>,
                    category: Seq<Result<CategoryChannelEntity, Error>>,
                |
                    #![trigger as_text_channels(text), as_voice_channels(voice), as_category_channels(category)]
                    {
                        &&& is_guild_resolution(text_channels.entries(), guild_id, text)
                        &&& is_guild_resolution(voice_channels.entries(), guild_id, voice)
                        &&& is_guild_resolution(category_channels.entries(), guild_id, category)
                        &&& list@ == as_text_channels(text) + as_voice_channels(voice) + as_category_channels(
                            category,
                        )
                    }
                &&& T::reliable() && V::reliable() && C::reliable() ==> forall|i: int|
                    0 <= i < list@.len() ==> #[trigger] list@[i] is Ok
            },
    {
        let text = match list_in_guild(text_channels, guild_id) {
            Ok(list) => list,
            Err(why) => {
                return Err(why);
            },
        };
        let voice = match list_in_guild(voice_channels, guild_id) {
            Ok(list) => list,
            Err(why) => {
                return Err(why);
            },
        };
        let category = match list_in_guild(category_channels, guild_id) {
            Ok(list) => list,
            Err(why) => {
                return Err(why);
            },
        };
        let wrap_text = |item: Result<TextChannelEntity, Error>| -> (out: Result<GuildChannelEntity, Error>)
            ensures
                out == (match item {
                    Ok(channel) => Ok::<GuildChannelEntity, Error>(GuildChannelEntity::Text(channel)),
                    Err(why) => Err(why),
                }),
        {
            match item {
                Ok(channel) => Ok(GuildChannelEntity::Text(channel)),
                Err(why) => Err(why),
            }
        };
        let wrap_voice = |item: Result<VoiceChannelEntity, Error>| -> (out: Result<GuildChannelEntity, Error>)
            ensures
                out == (match item {
                    Ok(channel) => Ok::<GuildChannelEntity, Error>(GuildChannelEntity::Voice(channel)),
                    Err(why) => Err(why),
                }),
        {
            match item {
                Ok(channel) => Ok(GuildChannelEntity::Voice(channel)),
                Err(why) => Err(why),
            }
        };
        let wrap_category = |item: Result<CategoryChannelEntity, Error>| -> (out: Result<
            GuildChannelEntity,
            Error,
        >)
            ensures
                out == (match item {
                    Ok(channel) => Ok::<GuildChannelEntity, Error>(GuildChannelEntity::Category(channel)),
                    Err(why) => Err(why),
                }),
        {
            match item {
                Ok(channel) => Ok(GuildChannelEntity::Category(channel)),
                Err(why) => Err(why),
            }
        };
        let ghost texts = text@;
        let ghost voices = voice@;
        let ghost categories = category@;
        let mut list = map_each(text, wrap_text);
        let mut voice = map_each(voice, wrap_voice);
        let mut category = map_each(category, wrap_category);
        proof {
            assert(list@ =~= as_text_channels(texts));
            assert(voice@ =~= as_voice_channels(voices));
            assert(category@ =~= as_category_channels(categories));
        }
        list.append(&mut voice);
        list.append(&mut category);
        proof {
            assert(list@ == as_text_channels(texts) + as_voice_channels(voices) + as_category_channels(
                categories,
            ));
        }
        Ok(list)
    }

    /// Retrieve the widget channel associated with a guild.
    ///
    /// `None` is returned if the widget channel is not configured or is not
    /// present in the cache. The guild names the channel by id alone: the
    /// channel is looked up among the text channels, then the voice
    /// channels, then the category channels.
    fn widget_channel<
        T: Repository<TextChannelEntity, Error>,
        V: Repository<VoiceChannelEntity, Error>,
        C: Repository<CategoryChannelEntity, Error>,
    >(
        &self,
        text_channels: &T,
        voice_channels: &V,
        category_channels: &C,
        guild_id: GuildId,
    ) -> (found: Result<Option<GuildChannelEntity>, Error>)
        requires
            self.wf(),
            text_channels.wf(),
            voice_channels.wf(),
            category_channels.wf(),
        ensures
            Self::reliable() && T::reliable() && V::reliable() && C::reliable() ==> found is Ok,
            found matches Ok(channel) ==> channel == (match self.entries().get(guild_id) {
                Some(guild) => match guild.widget_channel_id {
                    Some(channel_id) => guild_channel_of(
                        text_channels.entries(),
                        voice_channels.entries(),
                        category_channels.entries(),
                        channel_id,
                    ),
                    None => None,
                },
                None => None,
            }),
    {
        let channel_id = match self.get(guild_id) {
            Ok(Some(guild)) => match guild.widget_channel_id {
                Some(channel_id) => channel_id,
                None => {
                    return Ok(None);
                },
            },
            Ok(None) => {
                return Ok(None);
            },
            Err(why) => {
                return Err(why);
            },
        };
        find_guild_channel(text_channels, voice_channels, category_channels, channel_id)
    }

    /// Retrieve the IDs of the emojis within a guild.
    fn emoji_ids<R: Repository<EmojiEntity, Error>>(
        &self,
        emojis: &R,
        guild_id: GuildId,
    ) -> (found: Result<Vec<EmojiId>, Error>)
        requires
            emojis.wf(),
        ensures
            R::reliable() ==> found is Ok,
            found matches Ok(ids) ==> is_guild_listing(emojis.entries(), guild_id, ids@),
    {
        emojis.ids_in_guild(guild_id)
    }

    /// Retrieve the emojis within a guild.
    fn emojis<R: Repository<EmojiEntity, Error>>(
        &self,
        emojis: &R,
        guild_id: GuildId,
    ) -> (found: Result<Vec<Result<EmojiEntity, Error>>, Error>)
        requires
            emojis.wf(),
        ensures
            R::reliable() ==> found is Ok,
            found matches Ok(list) ==> {
                &&& is_guild_resolution(emojis.entries(), guild_id, list@)
                &&& R::reliable() ==> forall|i: int| 0 <= i < list@.len() ==> #[trigger] list@[i] is Ok
            },
    {
        list_in_guild(emojis, guild_id)
    }

    /// Retrieve the user IDs of the members within a guild.
    fn member_ids<R: Repository<MemberEntity, Error>>(
        &self,
        members: &R,
        guild_id: GuildId,
    ) -> (found: Result<Vec<UserId>, Error>)
        requires
            members.wf(),
        ensures
            R::reliable() ==> found is Ok,
            found matches Ok(ids) ==> is_user_listing(members.entries(), guild_id, ids@),
    {
        users_in_guild(members, guild_id)
    }

    /// Retrieve the members within a guild.
    fn members<R: Repository<MemberEntity, Error>>(
        &self,
        members: &R,
        guild_id: GuildId,
    ) -> (found: Result<Vec<Result<MemberEntity, Error>>, Error>)
        requires
            members.wf(),
        ensures
            R::reliable() ==> found is Ok,
            found matches Ok(list) ==> {
                &&& is_guild_resolution(members.entries(), guild_id, list@)
                &&& R::reliable() ==> forall|i: int| 0 <= i < list@.len() ==> #[trigger] list@[i] is Ok
            },
    {
        list_in_guild(members, guild_id)
    }

    /// Retrieve the user IDs of the presences within a guild.
    fn presence_ids<R: Repository<PresenceEntity, Error>>(
        &self,
        presences: &R,
        guild_id: GuildId,
    ) -> (found: Result<Vec<UserId>, Error>)
        requires
            presences.wf(),
        ensures
            R::reliable() ==> found is Ok,
            found matches Ok(ids) ==> is_user_listing(presences.entries(), guild_id, ids@),
    {
        users_in_guild(presences, guild_id)
    }

    /// Retrieve the presences within a guild.
    fn presences<R: Repository<PresenceEntity, Error>>(
        &self,
        presences: &R,
        guild_id: GuildId,
    ) -> (found: Result<Vec<Result<PresenceEntity, Error>>, Error>)
        requires
            presences.wf(),
        ensures
            R::reliable() ==> found is Ok,
            found matches Ok(list) ==> {
                &&& is_guild_resolution(presences.entries(), guild_id, list@)
                &&& R::reliable() ==> forall|i: int| 0 <= i < list@.len() ==> #[trigger] list@[i] is Ok
            },
    {
        list_in_guild(presences, guild_id)
    }

    /// Retrieve the IDs of the roles within a guild.
    fn role_ids<R: Repository<RoleEntity, Error>>(
        &self,
        roles: &R,
        guild_id: GuildId,
    ) -> (found: Result<Vec<RoleId>, Error>)
        requires
            roles.wf(),
        ensures
            R::reliable() ==> found is Ok,
            found matches Ok(ids) ==> is_guild_listing(roles.entries(), guild_id, ids@),
    {
        roles.ids_in_guild(guild_id)
    }

    /// Retrieve the roles within a guild.
    fn roles<R: Repository<RoleEntity, Error>>(
        &self,
        roles: &R,
        guild_id: GuildId,
    ) -> (found: Result<Vec<Result<RoleEntity, Error>>, Error>)
        requires
            roles.wf(),
        ensures
            R::reliable() ==> found is Ok,
            found matches Ok(list) ==> {
                &&& is_guild_resolution(roles.entries(), guild_id, list@)
                &&& R::reliable() ==> forall|i: int| 0 <= i < list@.len() ==> #[trigger] list@[i] is Ok
            },
    {
        list_in_guild(roles, guild_id)
    }

    /// Retrieve the user IDs of the voice states within a guild.
    fn voice_state_ids<R: Repository<VoiceStateEntity, Error>>(
        &self,
        voice_states: &R,
        guild_id: GuildId,
    ) -> (found: Result<Vec<UserId>, Error>)
        requires
            voice_states.wf(),
        ensures
            R::reliable() ==> found is Ok,
            found matches Ok(ids) ==> is_user_listing(voice_states.entries(), guild_id, ids@),
    {
        users_in_guild(voice_states, guild_id)
    }

    /// Retrieve the voice states within a guild.
    fn voice_states<R: Repository<VoiceStateEntity, Error>>(
        &self,
        voice_states: &R,
        guild_id: GuildId,
    ) -> (found: Result<Vec<Result<VoiceStateEntity, Error>>, Error>)
        requires
            voice_states.wf(),
        ensures
            R::reliable() ==> found is Ok,
            found matches Ok(list) ==> {
                &&& is_guild_resolution(voice_states.entries(), guild_id, list@)
                &&& R::reliable() ==> forall|i: int| 0 <= i < list@.len() ==> #[trigger] list@[i] is Ok
            },
    {
        list_in_guild(voice_states, guild_id)
    }

    /// Retrieve the owner associated with a guild.
    /// 
    /// `None` is returned if the user is not in the cache.
    fn owner<R: Repository<UserEntity, Error>>(
        &self,
        users: &R,
        guild_id: GuildId,
    ) -> (found: Result<Option<UserEntity>, Error>)
        requires
            self.wf(),
            users.wf(),
        ensures
            Self::reliable() && R::reliable() ==> found is Ok,
            found matches Ok(entity) ==> entity == (match self.entries().get(guild_id) {
                Some(local) => users.entries().get(local.owner_id),
                None => None,
            }),
    {
        let foreign_id = |local: GuildEntity| -> (id: UserId)
            ensures
                id == local.owner_id,
        {
            local.owner_id
        };
        relation_map(self, users, guild_id, foreign_id)
    }

    /// Retrieve the rules channel associated with a guild.
    /// 
    /// `None` is returned if the rules channel is not configured or is not
    /// present in the cache.
    fn rules_channel<R: Repository<TextChannelEntity, Error>>(
        &self,
        text_channels: &R,
        guild_id: GuildId,
    ) -> (found: Result<Option<TextChannelEntity>, Error>)
        requires
            self.wf(),
            text_channels.wf(),
        ensures
            Self::reliable() && R::reliable() ==> found is Ok,
            found matches Ok(entity) ==> entity == (match self.entries().get(guild_id) {
                Some(local) => match local.rules_channel_id {
                    Some(foreign_id) => text_channels.entries().get(foreign_id),
                    None => None,
                },
                None => None,
            }),
    {
        let foreign_id = |local: GuildEntity| -> (id: Option<ChannelId>)
            ensures
                id == local.rules_channel_id,
        {
            local.rules_channel_id
        };
        relation_and_then(self, text_channels, guild_id, foreign_id)
    }

    /// Retrieve the system channel associated with a guild.
    /// 
    /// `None` is returned if the system channel is not configured or is not
    /// present in the cache.
    fn system_channel<R: Repository<TextChannelEntity, Error>>(
        &self,
        text_channels: &R,
        guild_id: GuildId,
    ) -> (found: Result<Option<TextChannelEntity>, Error>)
        requires
            self.wf(),
            text_channels.wf(),
        ensures
            Self::reliable() && R::reliable() ==> found is Ok,
            found matches Ok(entity) ==> entity == (match self.entries().get(guild_id) {
                Some(local) => match local.system_channel_id {
                    Some(foreign_id) => text_channels.entries().get(foreign_id),
                    None => None,
                },
                None => None,
            }),
    {
        let foreign_id = |local: GuildEntity| -> (id: Option<ChannelId>)
            ensures
                id == local.system_channel_id,
        {
            local.system_channel_id
        };
        relation_and_then(self, text_channels, guild_id, foreign_id)
    }
}

} // verus!
