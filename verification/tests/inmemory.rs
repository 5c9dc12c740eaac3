use rarity_cache::cache::Cache;
use rarity_cache::entity::channel::attachment::AttachmentRepository;
use rarity_cache::entity::channel::message::MessageRepository;
use rarity_cache::entity::channel::{
    CategoryChannelEntity, ChannelEntity, GroupEntity, GuildChannelEntity, PrivateChannelEntity,
    TextChannelEntity, VoiceChannelEntity,
};
use rarity_cache::entity::guild::{GuildEntity, GuildRepository, MemberEntity};
use rarity_cache::entity::user::{CurrentUserEntity, UserEntity};
use rarity_cache::id::{AttachmentId, ChannelId, EmojiId, GuildId, MessageId, RoleId, UserId};
use rarity_cache::inmemory::{InMemoryBackend, InMemoryCache};
use rarity_cache::model::channel::{
    Attachment, CategoryChannel, Channel, Group, GuildChannel, Message, PrivateChannel,
    TextChannel, VoiceChannel,
};
use rarity_cache::model::gateway::{
    ChannelCreate, ChannelDelete, ChannelPinsUpdate, ChannelUpdate, Event, GuildCreate,
    GuildDelete, GuildEmojisUpdate, GuildUpdate, MemberAdd, MemberChunk, MemberRemove,
    MemberUpdate, MessageCreate, MessageDelete, MessageDeleteBulk, MessageUpdate, PresenceUpdate,
    Ready, RoleCreate, RoleDelete, RoleUpdate, UserUpdate, VoiceStateUpdate,
};
use rarity_cache::model::guild::{Emoji, Guild, Member, PartialGuild, Role};
use rarity_cache::model::presence::{Presence, UserOrId};
use rarity_cache::model::user::{CurrentUser, User};
use rarity_cache::model::voice::VoiceState;
use rarity_cache::repository::{Repository, SingleEntityRepository};
use twilight_model::channel::message::MessageType;
use twilight_model::channel::ChannelType;
use twilight_model::gateway::presence::{ClientStatus, Status};
use twilight_model::guild::{
    DefaultMessageNotificationLevel, ExplicitContentFilter, MfaLevel, Permissions, PremiumTier,
    SystemChannelFlags, VerificationLevel,
};

fn user() -> User {
    User {
        avatar: None,
        bot: true,
        discriminator: String::from("0001"),
        email: None,
        flags: None,
        id: UserId(2),
        locale: Some(String::from("en-US")),
        mfa_enabled: None,
        name: String::from("user"),
        premium_type: None,
        public_flags: None,
        system: Some(false),
        verified: Some(false),
    }
}

fn user2() -> User {
    User {
        avatar: None,
        bot: true,
        discriminator: String::from("0002"),
        email: None,
        flags: None,
        id: UserId(9),
        locale: Some(String::from("en-US")),
        mfa_enabled: None,
        name: String::from("user2"),
        premium_type: None,
        public_flags: None,
        system: Some(false),
        verified: Some(false),
    }
}

fn current_user() -> CurrentUser {
    let user = user();

    CurrentUser {
        avatar: user.avatar,
        bot: user.bot,
        discriminator: user.discriminator,
        email: user.email,
        flags: user.flags,
        id: user.id,
        mfa_enabled: false,
        name: user.name,
        premium_type: user.premium_type,
        public_flags: user.public_flags,
        verified: user.verified,
    }
}

fn ready() -> Ready {
    Ready { user: current_user() }
}

fn member() -> Member {
    Member {
        deaf: false,
        guild_id: GuildId(1),
        hoisted_role: None,
        joined_at: Some(String::from("2012-11-21T10:00:00.40000+00:00")),
        mute: false,
        nick: None,
        premium_since: None,
        roles: Vec::new(),
        user: user(),
    }
}

fn member2() -> Member {
    Member {
        deaf: false,
        guild_id: GuildId(1),
        hoisted_role: None,
        joined_at: Some(String::from("2012-11-21T11:00:00.40000+00:00")),
        mute: false,
        nick: None,
        premium_since: None,
        roles: Vec::new(),
        user: user2(),
    }
}

fn member_chunk() -> MemberChunk {
    let mut members = Vec::new();

    for i in 400u64..=410 {
        members.push(Member {
            deaf: false,
            guild_id: GuildId(1),
            hoisted_role: None,
            joined_at: Some(String::from("2012-11-21T10:00:00.40000+00:00")),
            mute: false,
            nick: None,
            premium_since: None,
            roles: Vec::new(),
            user: User {
                avatar: None,
                bot: true,
                discriminator: format!("0{}", i),
                email: None,
                flags: None,
                id: UserId(i),
                locale: Some(String::from("en-US")),
                mfa_enabled: None,
                name: format!("user{}", i),
                premium_type: None,
                public_flags: None,
                system: Some(false),
                verified: Some(false),
            },
        });
    }

    MemberChunk { guild_id: GuildId(1), members }
}

fn client_status() -> ClientStatus {
    ClientStatus { desktop: None, mobile: None, web: None }
}

fn presence_update() -> PresenceUpdate {
    PresenceUpdate {
        activities: Vec::new(),
        client_status: client_status(),
        game: None,
        guild_id: GuildId(1),
        status: Status::Online,
        user: UserOrId::UserId { id: UserId(405) },
    }
}

fn emoji() -> Emoji {
    Emoji {
        animated: false,
        available: true,
        id: EmojiId(200),
        managed: false,
        name: String::from("emoji"),
        require_colons: true,
        roles: Vec::new(),
        user: Some(user()),
    }
}

fn voice_state() -> VoiceState {
    VoiceState {
        channel_id: Some(ChannelId(6)),
        deaf: false,
        guild_id: Some(GuildId(1)),
        member: Some(member()),
        mute: false,
        self_deaf: false,
        self_mute: false,
        self_stream: false,
        session_id: String::from("session"),
        suppress: false,
        token: Some(String::from("token")),
        user_id: UserId(2),
    }
}

fn role() -> Role {
    Role {
        color: 0x000000,
        hoist: false,
        id: RoleId(12),
        managed: false,
        mentionable: false,
        name: String::from("role"),
        permissions: Permissions::empty(),
        position: 1,
    }
}

fn group() -> Group {
    Group {
        application_id: None,
        icon: None,
        id: ChannelId(3),
        kind: ChannelType::Group,
        last_message_id: None,
        last_pin_timestamp: None,
        name: Some(String::from("group")),
        owner_id: UserId(2),
        recipients: vec![user(), user2()],
    }
}

fn category() -> CategoryChannel {
    CategoryChannel {
        guild_id: Some(GuildId(1)),
        id: ChannelId(4),
        kind: ChannelType::GuildCategory,
        name: String::from("category"),
        permission_overwrites: Vec::new(),
        position: 1,
    }
}

fn text() -> TextChannel {
    TextChannel {
        guild_id: Some(GuildId(1)),
        id: ChannelId(5),
        kind: ChannelType::GuildText,
        last_message_id: None,
        last_pin_timestamp: None,
        name: String::from("text"),
        nsfw: false,
        permission_overwrites: Vec::new(),
        parent_id: Some(ChannelId(4)),
        position: 2,
        rate_limit_per_user: None,
        topic: None,
    }
}

fn voice() -> VoiceChannel {
    VoiceChannel {
        bitrate: 96_000,
        guild_id: Some(GuildId(1)),
        id: ChannelId(6),
        kind: ChannelType::GuildVoice,
        name: String::from("voice"),
        permission_overwrites: Vec::new(),
        parent_id: Some(ChannelId(4)),
        position: 3,
        user_limit: Some(3),
    }
}

fn private() -> PrivateChannel {
    PrivateChannel {
        id: ChannelId(7),
        last_message_id: None,
        last_pin_timestamp: None,
        kind: ChannelType::Private,
        recipients: vec![user2()],
    }
}

fn attachment(id: u64) -> Attachment {
    Attachment {
        filename: format!("filename{}.png", id),
        height: Some(600),
        id: AttachmentId(id),
        proxy_url: String::from("proxy url"),
        size: 123_456_789,
        url: String::from("url"),
        width: Some(400),
    }
}

fn message(i: u64) -> Message {
    Message {
        activity: None,
        application_id: None,
        attachments: vec![attachment(i + 100)],
        author: user(),
        channel_id: ChannelId(5),
        content: format!("test {}", i),
        edited_timestamp: None,
        embeds: Vec::new(),
        flags: None,
        guild_id: Some(GuildId(1)),
        id: MessageId(i),
        kind: MessageType::Regular,
        mention_channels: Vec::new(),
        mention_everyone: false,
        mention_roles: Vec::new(),
        mentions: Vec::new(),
        pinned: false,
        reactions: Vec::new(),
        timestamp: String::from("2012-11-21T12:00:00.40000+00:00"),
        tts: false,
        webhook_id: None,
    }
}

fn messages() -> Vec<Message> {
    let mut messages = Vec::new();

    for i in 100u64..=110 {
        messages.push(message(i));
    }

    messages
}

fn guild() -> Guild {
    Guild {
        afk_channel_id: None,
        afk_timeout: 0,
        application_id: None,
        approximate_member_count: Some(1),
        approximate_presence_count: Some(1),
        banner: None,
        channels: Vec::new(),
        default_message_notifications: DefaultMessageNotificationLevel::All,
        description: Some(String::from("a")),
        discovery_splash: None,
        emojis: Vec::new(),
        explicit_content_filter: ExplicitContentFilter::None,
        features: Vec::new(),
        icon: None,
        id: GuildId(1),
        joined_at: Some(String::from("2012-11-21T10:00:00.40000+00:00")),
        large: false,
        lazy: None,
        max_members: None,
        max_presences: None,
        max_video_channel_users: Some(100),
        member_count: Some(1),
        members: vec![member()],
        mfa_level: MfaLevel::None,
        name: String::from("guild"),
        owner_id: UserId(2),
        owner: Some(true),
        permissions: None,
        preferred_locale: String::from("en-US"),
        premium_subscription_count: Some(0),
        premium_tier: PremiumTier::None,
        presences: vec![Presence {
            activities: Vec::new(),
            client_status: client_status(),
            guild_id: GuildId(1),
            status: Status::Offline,
            user: UserOrId::UserId { id: UserId(2) },
        }],
        region: String::from("us-east"),
        roles: Vec::new(),
        rules_channel_id: None,
        splash: None,
        system_channel_flags: SystemChannelFlags::empty(),
        system_channel_id: None,
        unavailable: false,
        vanity_url_code: None,
        verification_level: VerificationLevel::Low,
        voice_states: Vec::new(),
        widget_channel_id: None,
        widget_enabled: None,
    }
}

fn partial_guild() -> PartialGuild {
    PartialGuild {
        afk_channel_id: None,
        afk_timeout: 0,
        application_id: None,
        banner: None,
        default_message_notifications: DefaultMessageNotificationLevel::All,
        description: None,
        discovery_splash: None,
        explicit_content_filter: ExplicitContentFilter::None,
        features: Vec::new(),
        icon: None,
        id: GuildId(1),
        max_members: None,
        max_presences: None,
        member_count: Some(1),
        mfa_level: MfaLevel::None,
        name: String::from("new guild"),
        owner_id: UserId(2),
        owner: Some(true),
        permissions: None,
        preferred_locale: String::from("en-US"),
        premium_subscription_count: Some(0),
        premium_tier: PremiumTier::None,
        region: String::from("us-east"),
        rules_channel_id: None,
        splash: None,
        system_channel_flags: SystemChannelFlags::empty(),
        system_channel_id: None,
        vanity_url_code: None,
        verification_level: VerificationLevel::Low,
        widget_channel_id: None,
        widget_enabled: None,
    }
}

#[test]
fn test_inmemory_cache() {
    let mut cache = InMemoryCache::new();

    // ready
    let event = Event::Ready(ready());
    let _ = cache.process(event);

    assert_eq!(
        cache.current_user.get().unwrap().unwrap(),
        CurrentUserEntity {
            avatar: None,
            bot: true,
            discriminator: String::from("0001"),
            email: None,
            flags: None,
            id: UserId(2),
            mfa_enabled: false,
            name: String::from("user"),
            premium_type: None,
            public_flags: None,
            verified: Some(false),
        }
    );

    // guild create
    let event = Event::GuildCreate(GuildCreate(guild()));
    let _ = cache.process(event);

    assert_eq!(
        cache.guilds.get(GuildId(1)).unwrap().unwrap(),
        GuildEntity {
            afk_channel_id: None,
            afk_timeout: 0,
            application_id: None,
            approximate_member_count: Some(1),
            approximate_presence_count: Some(1),
            banner: None,
            default_message_notifications: DefaultMessageNotificationLevel::All,
            description: Some(String::from("a")),
            discovery_splash: None,
            explicit_content_filter: ExplicitContentFilter::None,
            features: Vec::new(),
            icon: None,
            id: GuildId(1),
            joined_at: Some(String::from("2012-11-21T10:00:00.40000+00:00")),
            large: false,
            lazy: None,
            max_members: None,
            max_presences: None,
            max_video_channel_users: Some(100),
            member_count: Some(1),
            mfa_level: MfaLevel::None,
            name: String::from("guild"),
            owner_id: UserId(2),
            owner: Some(true),
            permissions: None,
            preferred_locale: String::from("en-US"),
            premium_subscription_count: Some(0),
            premium_tier: PremiumTier::None,
            region: String::from("us-east"),
            rules_channel_id: None,
            splash: None,
            system_channel_flags: SystemChannelFlags::empty(),
            system_channel_id: None,
            unavailable: false,
            vanity_url_code: None,
            verification_level: VerificationLevel::Low,
            widget_channel_id: None,
            widget_enabled: None,
        }
    );

    let member_ids = cache.members.list().unwrap();
    let mut member_ids = member_ids.into_iter();

    assert_eq!(
        member_ids.next().unwrap(),
        MemberEntity {
            deaf: false,
            guild_id: GuildId(1),
            hoisted_role_id: None,
            joined_at: Some(String::from("2012-11-21T10:00:00.40000+00:00")),
            mute: false,
            nick: None,
            premium_since: None,
            role_ids: Vec::new(),
            user_id: UserId(2),
        }
    );

    assert!(member_ids.next().is_none());

    assert_eq!(
        cache.guilds.owner(&cache.users, GuildId(1)).unwrap().unwrap(),
        UserEntity {
            avatar: None,
            bot: true,
            discriminator: String::from("0001"),
            email: None,
            flags: None,
            id: UserId(2),
            locale: Some(String::from("en-US")),
            mfa_enabled: None,
            name: String::from("user"),
            premium_type: None,
            public_flags: None,
            system: Some(false),
            verified: Some(false),
        }
    );

    // guild update
    let event = Event::GuildUpdate(GuildUpdate(partial_guild()));
    let _ = cache.process(event);

    let cached_new_guild = cache.guilds.get(GuildId(1)).unwrap().unwrap();
    assert_eq!(cached_new_guild.name, String::from("new guild"));
    assert_eq!(cached_new_guild.description, Some(String::from("a")));

    // channel create
    let event = Event::ChannelCreate(ChannelCreate(Channel::Group(group())));
    let _ = cache.process(event);

    assert_eq!(
        cache.groups.get(ChannelId(3)).unwrap().unwrap(),
        GroupEntity {
            application_id: None,
            icon: None,
            id: ChannelId(3),
            kind: ChannelType::Group,
            last_message_id: None,
            last_pin_timestamp: None,
            name: Some(String::from("group")),
            owner_id: UserId(2),
            recipient_ids: vec![UserId(2), UserId(9)],
        }
    );

    let event = Event::ChannelCreate(ChannelCreate(Channel::Guild(GuildChannel::Category(
        category(),
    ))));
    let _ = cache.process(event);

    assert_eq!(
        cache.category_channels.get(ChannelId(4)).unwrap().unwrap(),
        CategoryChannelEntity {
            guild_id: Some(GuildId(1)),
            id: ChannelId(4),
            kind: ChannelType::GuildCategory,
            name: String::from("category"),
            permission_overwrites: Vec::new(),
            position: 1,
        }
    );

    let event = Event::ChannelCreate(ChannelCreate(Channel::Guild(GuildChannel::Text(text()))));
    let _ = cache.process(event);

    assert_eq!(
        cache.text_channels.get(ChannelId(5)).unwrap().unwrap(),
        TextChannelEntity {
            guild_id: Some(GuildId(1)),
            id: ChannelId(5),
            kind: ChannelType::GuildText,
            last_message_id: None,
            last_pin_timestamp: None,
            name: String::from("text"),
            nsfw: false,
            permission_overwrites: Vec::new(),
            parent_id: Some(ChannelId(4)),
            position: 2,
            rate_limit_per_user: None,
            topic: None,
        }
    );

    let event = Event::ChannelCreate(ChannelCreate(Channel::Guild(GuildChannel::Voice(voice()))));
    let _ = cache.process(event);

    assert_eq!(
        cache.voice_channels.get(ChannelId(6)).unwrap().unwrap(),
        VoiceChannelEntity {
            bitrate: 96_000,
            guild_id: Some(GuildId(1)),
            id: ChannelId(6),
            kind: ChannelType::GuildVoice,
            name: String::from("voice"),
            permission_overwrites: Vec::new(),
            parent_id: Some(ChannelId(4)),
            position: 3,
            user_limit: Some(3),
        }
    );

    let event = Event::ChannelCreate(ChannelCreate(Channel::Private(private())));
    let _ = cache.process(event);

    assert_eq!(
        cache.private_channels.get(ChannelId(7)).unwrap().unwrap(),
        PrivateChannelEntity {
            id: ChannelId(7),
            last_message_id: None,
            last_pin_timestamp: None,
            kind: ChannelType::Private,
            recipient_id: Some(UserId(9)),
        }
    );

    assert_eq!(cache.users.get(UserId(2)), Ok(Some(UserEntity::from(user()))));

    // member add
    let event = Event::MemberAdd(MemberAdd(member2()));
    let _ = cache.process(event);

    assert_eq!(
        cache.members.get((GuildId(1), UserId(9))).unwrap().unwrap(),
        MemberEntity {
            deaf: false,
            guild_id: GuildId(1),
            hoisted_role_id: None,
            joined_at: Some(String::from("2012-11-21T11:00:00.40000+00:00")),
            mute: false,
            nick: None,
            premium_since: None,
            role_ids: Vec::new(),
            user_id: UserId(9),
        }
    );

    // channel update
    let event = Event::ChannelUpdate(ChannelUpdate(Channel::Group(Group {
        name: Some(String::from("new group name")),
        ..group()
    })));
    let _ = cache.process(event);

    assert_eq!(
        cache.groups.get(ChannelId(3)).unwrap().unwrap().name,
        Some(String::from("new group name"))
    );

    let event = Event::ChannelUpdate(ChannelUpdate(Channel::Guild(GuildChannel::Category(
        CategoryChannel { name: String::from("new category name"), ..category() },
    ))));
    let _ = cache.process(event);

    assert_eq!(
        cache.category_channels.get(ChannelId(4)).unwrap().unwrap().name,
        String::from("new category name")
    );

    let event = Event::ChannelUpdate(ChannelUpdate(Channel::Guild(GuildChannel::Text(
        TextChannel { nsfw: true, ..text() },
    ))));
    let _ = cache.process(event);

    assert!(cache.text_channels.get(ChannelId(5)).unwrap().unwrap().nsfw);

    let event = Event::ChannelCreate(ChannelCreate(Channel::Guild(GuildChannel::Voice(
        VoiceChannel { user_limit: Some(4), ..voice() },
    ))));
    let _ = cache.process(event);

    assert_eq!(
        cache.voice_channels.get(ChannelId(6)).unwrap().unwrap().user_limit,
        Some(4),
    );

    let event = Event::ChannelCreate(ChannelCreate(Channel::Private(PrivateChannel {
        last_message_id: Some(MessageId(100)),
        ..private()
    })));
    let _ = cache.process(event);

    assert_eq!(
        cache.private_channels.get(ChannelId(7)).unwrap().unwrap().last_message_id,
        Some(MessageId(100))
    );

    assert_eq!(
        cache.users.get(UserId(2)).unwrap().unwrap(),
        UserEntity {
            avatar: None,
            bot: true,
            discriminator: String::from("0001"),
            email: None,
            flags: None,
            id: UserId(2),
            locale: Some(String::from("en-US")),
            mfa_enabled: None,
            name: String::from("user"),
            premium_type: None,
            public_flags: None,
            system: Some(false),
            verified: Some(false),
        }
    );

    // member update
    let member3 = MemberUpdate {
        guild_id: GuildId(1),
        joined_at: String::from("2012-11-21T11:00:00.40000+00:00"),
        nick: None,
        premium_since: None,
        roles: Vec::new(),
        user: User { name: String::from("new name"), ..user2() },
    };

    let event = Event::MemberUpdate(member3.clone());
    let _ = cache.process(event);

    assert_eq!(
        cache.users.get(UserId(9)).unwrap().unwrap(),
        UserEntity {
            avatar: None,
            bot: true,
            discriminator: String::from("0002"),
            email: None,
            flags: None,
            id: UserId(9),
            locale: Some(String::from("en-US")),
            mfa_enabled: None,
            name: String::from("new name"),
            premium_type: None,
            public_flags: None,
            system: Some(false),
            verified: Some(false),
        }
    );

    // message create
    for message in messages() {
        let event = Event::MessageCreate(MessageCreate(message));
        let _ = cache.process(event);
    }

    assert_eq!(
        cache.messages.get(MessageId(105)).unwrap().unwrap().content,
        String::from("test 105")
    );

    assert_eq!(
        cache.attachments.get(AttachmentId(205)).unwrap().unwrap().filename,
        String::from("filename205.png")
    );

    // channel pins update
    let event = Event::ChannelPinsUpdate(ChannelPinsUpdate {
        channel_id: ChannelId(5),
        guild_id: Some(GuildId(1)),
        last_pin_timestamp: Some(String::from("2012-11-21T11:01:00.40000+00:00")),
    });
    let _ = cache.process(event);

    assert_eq!(
        cache.text_channels.get(ChannelId(5)).unwrap().unwrap().last_pin_timestamp,
        Some(String::from("2012-11-21T11:01:00.40000+00:00"))
    );

    // guild emojis update
    let event = Event::GuildEmojisUpdate(GuildEmojisUpdate {
        emojis: vec![emoji()],
        guild_id: GuildId(1),
    });
    let _ = cache.process(event);

    assert_eq!(
        cache.emojis.get(EmojiId(200)).unwrap().unwrap().name,
        String::from("emoji")
    );

    // message update
    let event = Event::MessageUpdate(MessageUpdate {
        attachments: None,
        author: Some(user()),
        channel_id: ChannelId(5),
        content: Some(String::from("110 new content")),
        edited_timestamp: Some(String::from("2012-11-21T12:01:00.40000+00:00")),
        embeds: None,
        guild_id: Some(GuildId(1)),
        id: MessageId(110),
        kind: None,
        mention_everyone: None,
        mention_roles: None,
        mentions: None,
        pinned: None,
        timestamp: Some(String::from("2012-11-21T12:00:00.40000+00:00")),
        tts: None,
    });
    let _ = cache.process(event);

    assert_eq!(
        cache.messages.get(MessageId(110)).unwrap().unwrap().content,
        String::from("110 new content"),
    );

    // message delete
    let event = Event::MessageDelete(MessageDelete {
        channel_id: ChannelId(5),
        guild_id: Some(GuildId(1)),
        id: MessageId(110),
    });
    let _ = cache.process(event);

    assert_eq!(cache.messages.get(MessageId(110)).unwrap(), None);

    // message delete bulk
    let event = Event::MessageDeleteBulk(MessageDeleteBulk {
        channel_id: ChannelId(5),
        guild_id: Some(GuildId(1)),
        ids: (100..=109).map(MessageId).collect(),
    });
    let _ = cache.process(event);

    assert_eq!(cache.messages.get(MessageId(105)).unwrap(), None);
    assert_eq!(cache.attachments.get(AttachmentId(205)).unwrap(), None);

    // voice state update
    let event = Event::VoiceStateUpdate(VoiceStateUpdate(voice_state()));
    let _ = cache.process(event);

    assert_eq!(
        cache.voice_states.get((GuildId(1), UserId(2))).unwrap().unwrap().session_id,
        String::from("session")
    );

    // channel delete
    let event = Event::ChannelDelete(ChannelDelete(Channel::Guild(GuildChannel::Voice(voice()))));
    let _ = cache.process(event);

    assert_eq!(cache.voice_channels.get(ChannelId(6)).unwrap(), None);

    // role create
    let event = Event::RoleCreate(RoleCreate { guild_id: GuildId(1), role: role() });
    let _ = cache.process(event);

    assert_eq!(cache.roles.get(RoleId(12)).unwrap().unwrap().name, String::from("role"));

    // role update
    let event = Event::RoleUpdate(RoleUpdate {
        guild_id: GuildId(1),
        role: Role { name: String::from("role new name"), ..role() },
    });
    let _ = cache.process(event);

    assert_eq!(
        cache.roles.get(RoleId(12)).unwrap().unwrap().name,
        String::from("role new name")
    );

    // role delete
    let event = Event::RoleDelete(RoleDelete { guild_id: GuildId(1), role_id: RoleId(12) });
    let _ = cache.process(event);

    assert_eq!(cache.roles.get(RoleId(12)).unwrap(), None);

    // user update
    let event = Event::UserUpdate(UserUpdate(CurrentUser {
        name: String::from("new user name"),
        ..current_user()
    }));
    let _ = cache.process(event);

    assert_eq!(
        cache.current_user.get().unwrap().unwrap().name,
        String::from("new user name")
    );

    // member remove
    let event = Event::MemberRemove(MemberRemove {
        guild_id: GuildId(1),
        user: member3.user.clone(),
    });
    let _ = cache.process(event);

    assert_eq!(cache.members.get((GuildId(1), UserId(9))).unwrap(), None);

    // member chunk
    let event = Event::MemberChunk(member_chunk());
    let _ = cache.process(event);

    assert_eq!(
        cache.users.get(UserId(405)).unwrap().unwrap().name,
        String::from("user405")
    );

    // presence update
    let event = Event::PresenceUpdate(presence_update());
    let _ = cache.process(event);

    assert_eq!(
        cache.presences.get((GuildId(1), UserId(405))).unwrap().unwrap().status,
        Status::Online
    );

    // guild delete
    let event = Event::GuildDelete(GuildDelete { id: GuildId(1), unavailable: true });
    let _ = cache.process(event);

    assert!(cache.guilds.get(GuildId(1)).unwrap().unwrap().unavailable);

    let event = Event::GuildDelete(GuildDelete { id: GuildId(1), unavailable: false });
    let _ = cache.process(event);

    assert_eq!(cache.guilds.get(GuildId(1)).unwrap(), None);
}

fn cache_with(backend: InMemoryBackend) -> InMemoryCache {
    Cache::with_backend(backend)
}

#[test]
fn guild_delete_removes_everything_under_the_guild() {
    let mut cache = InMemoryCache::new();
    let mut whole = guild();
    whole.channels = vec![
        GuildChannel::Category(category()),
        GuildChannel::Text(text()),
        GuildChannel::Voice(voice()),
    ];
    whole.emojis = vec![emoji()];
    whole.roles = vec![role()];
    whole.voice_states = vec![voice_state()];
    assert!(cache.process(Event::GuildCreate(GuildCreate(whole))).is_ok());
    // what belongs to another guild, or to none
    let other = Member { guild_id: GuildId(77), ..member() };
    assert!(cache.process(Event::MemberAdd(MemberAdd(other))).is_ok());
    assert!(cache.process(Event::ChannelCreate(ChannelCreate(Channel::Group(group())))).is_ok());

    assert!(cache.members.get((GuildId(1), UserId(2))).unwrap().is_some());
    assert!(cache.presences.get((GuildId(1), UserId(2))).unwrap().is_some());
    assert!(cache.voice_states.get((GuildId(1), UserId(2))).unwrap().is_some());
    assert_eq!(cache.guilds.role_ids(&cache.roles, GuildId(1)).unwrap(), vec![RoleId(12)]);
    assert_eq!(
        cache
            .guilds
            .channel_ids(&cache.text_channels, &cache.voice_channels, &cache.category_channels, GuildId(1))
            .unwrap(),
        vec![ChannelId(5), ChannelId(6), ChannelId(4)]
    );

    let event = Event::GuildDelete(GuildDelete { id: GuildId(1), unavailable: false });
    assert!(cache.process(event).is_ok());

    assert_eq!(cache.guilds.get(GuildId(1)).unwrap(), None);
    assert_eq!(cache.category_channels.get(ChannelId(4)).unwrap(), None);
    assert_eq!(cache.text_channels.get(ChannelId(5)).unwrap(), None);
    assert_eq!(cache.voice_channels.get(ChannelId(6)).unwrap(), None);
    assert_eq!(cache.emojis.get(EmojiId(200)).unwrap(), None);
    assert_eq!(cache.members.get((GuildId(1), UserId(2))).unwrap(), None);
    assert_eq!(cache.presences.get((GuildId(1), UserId(2))).unwrap(), None);
    assert_eq!(cache.roles.get(RoleId(12)).unwrap(), None);
    assert_eq!(cache.voice_states.get((GuildId(1), UserId(2))).unwrap(), None);
    assert!(cache.guilds.member_ids(&cache.members, GuildId(1)).unwrap().is_empty());

    // the rest stays
    assert!(cache.members.get((GuildId(77), UserId(2))).unwrap().is_some());
    assert!(cache.users.get(UserId(2)).unwrap().is_some());
    assert!(cache.groups.get(ChannelId(3)).unwrap().is_some());
}

#[test]
fn guild_delete_scenario_of_guild_member_and_role() {
    let mut cache = InMemoryCache::new();
    assert!(cache.guilds.upsert(GuildEntity::from(guild())).is_ok());
    assert!(cache.members.upsert(MemberEntity::from(member())).is_ok());
    assert!(cache.process(Event::RoleCreate(RoleCreate { guild_id: GuildId(1), role: role() })).is_ok());

    let event = Event::GuildDelete(GuildDelete { id: GuildId(1), unavailable: false });
    assert!(cache.process(event).is_ok());

    assert_eq!(cache.guilds.get(GuildId(1)).unwrap(), None);
    assert_eq!(cache.members.get((GuildId(1), UserId(2))).unwrap(), None);
    assert_eq!(cache.roles.get(RoleId(12)).unwrap(), None);
}

#[test]
fn unavailable_guild_keeps_the_guild_and_everything_under_it() {
    let mut cache = InMemoryCache::new();
    let mut whole = guild();
    whole.roles = vec![role()];
    assert!(cache.process(Event::GuildCreate(GuildCreate(whole))).is_ok());
    let before = cache.guilds.get(GuildId(1)).unwrap().unwrap();
    assert!(!before.unavailable);

    let event = Event::GuildDelete(GuildDelete { id: GuildId(1), unavailable: true });
    assert!(cache.process(event).is_ok());

    let after = cache.guilds.get(GuildId(1)).unwrap().unwrap();
    assert_eq!(after, GuildEntity { unavailable: true, ..before });
    assert!(cache.members.get((GuildId(1), UserId(2))).unwrap().is_some());
    assert!(cache.presences.get((GuildId(1), UserId(2))).unwrap().is_some());
    assert!(cache.roles.get(RoleId(12)).unwrap().is_some());

    // a guild that is not stored is not made up
    let event = Event::GuildDelete(GuildDelete { id: GuildId(50), unavailable: true });
    assert!(cache.process(event).is_ok());
    assert_eq!(cache.guilds.get(GuildId(50)).unwrap(), None);
}

#[test]
fn member_update_without_nick_keeps_the_stored_nick() {
    let mut cache = InMemoryCache::new();
    let stored = Member { nick: Some(String::from("Bob")), deaf: true, ..member2() };
    assert!(cache.process(Event::MemberAdd(MemberAdd(stored))).is_ok());

    let update = MemberUpdate {
        guild_id: GuildId(1),
        joined_at: String::from("2013-01-01T00:00:00.00000+00:00"),
        nick: None,
        premium_since: None,
        roles: vec![RoleId(12)],
        user: user2(),
    };
    assert!(cache.process(Event::MemberUpdate(update)).is_ok());

    let member = cache.members.get((GuildId(1), UserId(9))).unwrap().unwrap();
    assert_eq!(member.nick, Some(String::from("Bob")));
    assert_eq!(member.joined_at, Some(String::from("2013-01-01T00:00:00.00000+00:00")));
    assert_eq!(member.role_ids, vec![RoleId(12)]);
    assert!(member.deaf);

    let update = MemberUpdate {
        guild_id: GuildId(1),
        joined_at: String::from("2013-01-01T00:00:00.00000+00:00"),
        nick: Some(String::from("Rob")),
        premium_since: None,
        roles: Vec::new(),
        user: user2(),
    };
    assert!(cache.process(Event::MemberUpdate(update)).is_ok());
    assert_eq!(
        cache.members.get((GuildId(1), UserId(9))).unwrap().unwrap().nick,
        Some(String::from("Rob"))
    );
}

#[test]
fn member_update_of_a_member_that_is_not_stored_is_dropped() {
    let mut cache = InMemoryCache::new();
    let update = MemberUpdate {
        guild_id: GuildId(1),
        joined_at: String::from("2013-01-01T00:00:00.00000+00:00"),
        nick: Some(String::from("Rob")),
        premium_since: None,
        roles: Vec::new(),
        user: user2(),
    };
    assert!(cache.process(Event::MemberUpdate(update)).is_ok());
    assert_eq!(cache.members.get((GuildId(1), UserId(9))).unwrap(), None);
    assert!(cache.members.list().unwrap().is_empty());
    // the user that the update came with is stored all the same
    assert_eq!(cache.users.get(UserId(9)).unwrap(), Some(UserEntity::from(user2())));
}

#[test]
fn pins_update_of_a_group_touches_the_group_only() {
    let mut cache = InMemoryCache::new();
    assert!(cache.process(Event::ChannelCreate(ChannelCreate(Channel::Group(group())))).is_ok());
    assert!(cache
        .process(Event::ChannelCreate(ChannelCreate(Channel::Guild(GuildChannel::Text(text())))))
        .is_ok());
    assert!(cache.process(Event::ChannelCreate(ChannelCreate(Channel::Private(private())))).is_ok());

    let event = Event::ChannelPinsUpdate(ChannelPinsUpdate {
        channel_id: ChannelId(3),
        guild_id: None,
        last_pin_timestamp: Some(String::from("2012-11-21T11:01:00.40000+00:00")),
    });
    assert!(cache.process(event).is_ok());

    let stored = cache.groups.get(ChannelId(3)).unwrap().unwrap();
    assert_eq!(
        stored,
        GroupEntity {
            last_pin_timestamp: Some(String::from("2012-11-21T11:01:00.40000+00:00")),
            ..GroupEntity::from(group())
        }
    );
    assert_eq!(cache.text_channels.get(ChannelId(3)).unwrap(), None);
    assert_eq!(cache.private_channels.get(ChannelId(3)).unwrap(), None);
    assert_eq!(cache.text_channels.list().unwrap().len(), 1);
    assert_eq!(cache.private_channels.list().unwrap().len(), 1);
    assert_eq!(cache.text_channels.get(ChannelId(5)).unwrap().unwrap().last_pin_timestamp, None);
    assert_eq!(cache.private_channels.get(ChannelId(7)).unwrap().unwrap().last_pin_timestamp, None);

    // a patch without a time does not overwrite the stored one
    let event = Event::ChannelPinsUpdate(ChannelPinsUpdate {
        channel_id: ChannelId(3),
        guild_id: None,
        last_pin_timestamp: None,
    });
    assert!(cache.process(event).is_ok());
    assert_eq!(
        cache.groups.get(ChannelId(3)).unwrap().unwrap().last_pin_timestamp,
        Some(String::from("2012-11-21T11:01:00.40000+00:00"))
    );

    // a private channel is found too
    let event = Event::ChannelPinsUpdate(ChannelPinsUpdate {
        channel_id: ChannelId(7),
        guild_id: None,
        last_pin_timestamp: Some(String::from("2014-01-01T00:00:00.00000+00:00")),
    });
    assert!(cache.process(event).is_ok());
    assert_eq!(
        cache.private_channels.get(ChannelId(7)).unwrap().unwrap().last_pin_timestamp,
        Some(String::from("2014-01-01T00:00:00.00000+00:00"))
    );

    // a channel that is stored nowhere is made up nowhere
    let event = Event::ChannelPinsUpdate(ChannelPinsUpdate {
        channel_id: ChannelId(99),
        guild_id: None,
        last_pin_timestamp: Some(String::from("2014-01-01T00:00:00.00000+00:00")),
    });
    assert!(cache.process(event).is_ok());
    assert_eq!(cache.groups.get(ChannelId(99)).unwrap(), None);
    assert_eq!(cache.text_channels.get(ChannelId(99)).unwrap(), None);
    assert_eq!(cache.private_channels.get(ChannelId(99)).unwrap(), None);
}

#[test]
fn events_without_a_payload_change_nothing() {
    let mut cache = InMemoryCache::new();
    assert!(cache.process(Event::MemberAdd(MemberAdd(member()))).is_ok());
    for event in vec![
        Event::BanAdd,
        Event::BanRemove,
        Event::GatewayHeartbeat,
        Event::GatewayHeartbeatAck,
        Event::GatewayHello,
        Event::GatewayInvalidateSession,
        Event::GatewayReconnect,
        Event::GiftCodeUpdate,
        Event::GuildIntegrationsUpdate,
        Event::InviteCreate,
        Event::InviteDelete,
        Event::PresencesReplace,
        Event::ReactionAdd,
        Event::ReactionRemove,
        Event::ReactionRemoveAll,
        Event::ReactionRemoveEmoji,
        Event::Resumed,
        Event::ShardConnected,
        Event::ShardConnecting,
        Event::ShardDisconnected,
        Event::ShardIdentifying,
        Event::ShardPayload,
        Event::ShardReconnecting,
        Event::ShardResuming,
        Event::TypingStart,
        Event::UnavailableGuild,
        Event::VoiceServerUpdate,
        Event::WebhooksUpdate,
    ] {
        assert_eq!(cache.process(event), Ok(()));
    }
    assert_eq!(cache.members.list().unwrap().len(), 1);
    assert_eq!(cache.users.list().unwrap().len(), 1);
    assert!(cache.guilds.list().unwrap().is_empty());
    assert_eq!(cache.current_user.get().unwrap(), None);
}

#[test]
fn message_create_stores_the_message_its_attachments_and_its_author() {
    let mut cache = cache_with(InMemoryBackend::new());
    assert!(cache.process(Event::MessageCreate(MessageCreate(message(100)))).is_ok());
    let stored = cache.messages.get(MessageId(100)).unwrap().unwrap();
    assert_eq!(stored.attachments, vec![AttachmentId(200)]);
    assert_eq!(stored.author_id, UserId(2));
    assert_eq!(cache.users.get(UserId(2)).unwrap(), Some(UserEntity::from(user())));
    let attachment = cache.attachments.get(AttachmentId(200)).unwrap().unwrap();
    assert_eq!(attachment.message_id, MessageId(100));
    assert_eq!(
        cache.attachments.message(&cache.messages, AttachmentId(200)).unwrap(),
        Some(stored.clone())
    );
    assert_eq!(
        cache.messages.author(&cache.users, MessageId(100)).unwrap(),
        Some(UserEntity::from(user()))
    );
    // the channel of the message is not stored yet
    assert_eq!(
        cache
            .messages
            .channel(&cache.text_channels, &cache.private_channels, &cache.groups, MessageId(100))
            .unwrap(),
        None
    );
    assert!(cache
        .process(Event::ChannelCreate(ChannelCreate(Channel::Guild(GuildChannel::Text(text())))))
        .is_ok());
    assert_eq!(
        cache
            .messages
            .channel(&cache.text_channels, &cache.private_channels, &cache.groups, MessageId(100))
            .unwrap(),
        Some(ChannelEntity::Guild(GuildChannelEntity::Text(TextChannelEntity::from(text()))))
    );
}

#[test]
fn message_update_of_a_message_that_is_not_stored_is_dropped() {
    let mut cache = InMemoryCache::new();
    let event = Event::MessageUpdate(MessageUpdate {
        attachments: None,
        author: None,
        channel_id: ChannelId(5),
        content: Some(String::from("new")),
        edited_timestamp: None,
        embeds: None,
        guild_id: None,
        id: MessageId(1),
        kind: None,
        mention_everyone: None,
        mention_roles: None,
        mentions: None,
        pinned: None,
        timestamp: None,
        tts: None,
    });
    assert!(cache.process(event).is_ok());
    assert_eq!(cache.messages.get(MessageId(1)).unwrap(), None);
    assert!(cache.messages.list().unwrap().is_empty());
}

#[test]
fn message_update_keeps_what_it_does_not_carry() {
    let mut cache = InMemoryCache::new();
    assert!(cache.process(Event::MessageCreate(MessageCreate(message(100)))).is_ok());
    let before = cache.messages.get(MessageId(100)).unwrap().unwrap();
    let event = Event::MessageUpdate(MessageUpdate {
        attachments: Some(vec![attachment(7), attachment(8)]),
        author: None,
        channel_id: ChannelId(5),
        content: None,
        edited_timestamp: Some(String::from("2012-11-21T12:01:00.40000+00:00")),
        embeds: None,
        guild_id: None,
        id: MessageId(100),
        kind: None,
        mention_everyone: Some(true),
        mention_roles: None,
        mentions: Some(vec![UserId(9)]),
        pinned: None,
        timestamp: None,
        tts: None,
    });
    assert!(cache.process(event).is_ok());
    let after = cache.messages.get(MessageId(100)).unwrap().unwrap();
    assert_eq!(
        after,
        rarity_cache::entity::channel::MessageEntity {
            attachments: vec![AttachmentId(7), AttachmentId(8)],
            edited_timestamp: Some(String::from("2012-11-21T12:01:00.40000+00:00")),
            mention_everyone: true,
            mentions: vec![UserId(9)],
            ..before
        }
    );
}

#[test]
fn voice_state_outside_a_guild_is_not_stored() {
    let mut cache = InMemoryCache::new();
    let state = VoiceState { guild_id: None, ..voice_state() };
    assert!(cache.process(Event::VoiceStateUpdate(VoiceStateUpdate(state))).is_ok());
    assert!(cache.voice_states.list().unwrap().is_empty());
}

#[test]
fn presence_update_puts_the_game_first() {
    let mut cache = InMemoryCache::new();
    let update = PresenceUpdate { status: Status::Idle, ..presence_update() };
    assert!(cache.process(Event::PresenceUpdate(update)).is_ok());
    let stored = cache.presences.get((GuildId(1), UserId(405))).unwrap().unwrap();
    assert_eq!(stored.status, Status::Idle);
    assert!(stored.activities.is_empty());
    assert_eq!(cache.guilds.presence_ids(&cache.presences, GuildId(1)).unwrap(), vec![UserId(405)]);
}
