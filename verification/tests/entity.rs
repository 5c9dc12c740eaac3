use rarity_cache::entity::channel::attachment::{attachment_entities, attachment_ids};
use rarity_cache::entity::channel::{
    guild_channel_entities, AttachmentEntity, CategoryChannelEntity, GroupEntity, MessageEntity,
    PrivateChannelEntity, TextChannelEntity, VoiceChannelEntity,
};
use rarity_cache::entity::gateway::presence::presence_entities;
use rarity_cache::entity::gateway::PresenceEntity;
use rarity_cache::entity::guild::emoji::emoji_entities;
use rarity_cache::entity::guild::member::member_entities;
use rarity_cache::entity::guild::role::role_entities;
use rarity_cache::entity::guild::{user_halves, EmojiEntity, GuildEntity, MemberEntity, RoleEntity};
use rarity_cache::entity::user::{user_entities, user_ids, CurrentUserEntity, UserEntity};
use rarity_cache::entity::voice::state::voice_state_entities;
use rarity_cache::entity::voice::VoiceStateEntity;
use rarity_cache::id::{
    ApplicationId, AttachmentId, ChannelId, EmojiId, GuildId, MessageId, RoleId, UserId, WebhookId,
};
use rarity_cache::model::channel::{
    Attachment, CategoryChannel, Group, GuildChannel, Message, PrivateChannel, TextChannel,
    VoiceChannel,
};
use rarity_cache::model::gateway::{MemberUpdate, MessageUpdate, PresenceUpdate};
use rarity_cache::model::guild::{Emoji, Guild, Member, PartialGuild, Role};
use rarity_cache::model::presence::{Presence, UserOrId};
use rarity_cache::model::user::{CurrentUser, User};
use rarity_cache::model::voice::VoiceState;
use twilight_model::channel::message::MessageType;
use twilight_model::channel::ChannelType;
use twilight_model::gateway::presence::{Activity, ActivityType, ClientStatus, Status};
use twilight_model::guild::{
    DefaultMessageNotificationLevel, ExplicitContentFilter, MfaLevel, Permissions, PremiumTier,
    SystemChannelFlags, VerificationLevel,
};
use twilight_model::user::UserFlags;

fn user(id: u64) -> User {
    User {
        avatar: Some(format!("avatar{}", id)),
        bot: id % 2 == 0,
        discriminator: String::from("0001"),
        email: Some(String::from("a@b.c")),
        flags: Some(UserFlags::VERIFIED_BOT),
        id: UserId(id),
        locale: Some(String::from("en-US")),
        mfa_enabled: Some(true),
        name: format!("user{}", id),
        premium_type: None,
        public_flags: None,
        system: Some(false),
        verified: Some(true),
    }
}

fn user_entity(id: u64) -> UserEntity {
    UserEntity {
        avatar: Some(format!("avatar{}", id)),
        bot: id % 2 == 0,
        discriminator: String::from("0001"),
        email: Some(String::from("a@b.c")),
        flags: Some(UserFlags::VERIFIED_BOT),
        id: UserId(id),
        locale: Some(String::from("en-US")),
        mfa_enabled: Some(true),
        name: format!("user{}", id),
        premium_type: None,
        public_flags: None,
        system: Some(false),
        verified: Some(true),
    }
}

fn attachment(id: u64) -> Attachment {
    Attachment {
        filename: format!("f{}.png", id),
        height: Some(600),
        id: AttachmentId(id),
        proxy_url: String::from("proxy"),
        size: 123,
        url: String::from("url"),
        width: None,
    }
}

fn member(guild: u64, id: u64) -> Member {
    Member {
        deaf: true,
        guild_id: GuildId(guild),
        hoisted_role: Some(RoleId(12)),
        joined_at: Some(String::from("2012")),
        mute: false,
        nick: Some(String::from("nick")),
        premium_since: None,
        roles: vec![RoleId(12), RoleId(13)],
        user: user(id),
    }
}

fn activity(name: &str) -> Activity {
    Activity {
        application_id: None,
        assets: None,
        created_at: None,
        details: None,
        emoji: None,
        flags: None,
        id: None,
        instance: None,
        kind: ActivityType::Playing,
        name: String::from(name),
        party: None,
        secrets: None,
        state: None,
        timestamps: None,
        url: None,
    }
}

fn client_status() -> ClientStatus {
    ClientStatus { desktop: Some(Status::Online), mobile: None, web: None }
}

fn message() -> Message {
    Message {
        activity: None,
        application_id: Some(ApplicationId(77)),
        attachments: vec![attachment(3), attachment(1), attachment(2)],
        author: user(2),
        channel_id: ChannelId(5),
        content: String::from("content"),
        edited_timestamp: None,
        embeds: Vec::new(),
        flags: None,
        guild_id: Some(GuildId(1)),
        id: MessageId(100),
        kind: MessageType::Regular,
        mention_channels: vec![ChannelId(8)],
        mention_everyone: false,
        mention_roles: vec![RoleId(12)],
        mentions: vec![UserId(9)],
        pinned: true,
        reactions: Vec::new(),
        timestamp: String::from("2012-11-21T12:00:00.40000+00:00"),
        tts: false,
        webhook_id: Some(WebhookId(4)),
    }
}

fn guild() -> Guild {
    Guild {
        afk_channel_id: Some(ChannelId(6)),
        afk_timeout: 300,
        application_id: None,
        approximate_member_count: Some(1),
        approximate_presence_count: Some(2),
        banner: Some(String::from("banner")),
        channels: Vec::new(),
        default_message_notifications: DefaultMessageNotificationLevel::Mentions,
        description: Some(String::from("a")),
        discovery_splash: None,
        emojis: Vec::new(),
        explicit_content_filter: ExplicitContentFilter::None,
        features: vec![String::from("feature")],
        icon: None,
        id: GuildId(1),
        joined_at: Some(String::from("2012")),
        large: true,
        lazy: Some(true),
        max_members: Some(10),
        max_presences: None,
        max_video_channel_users: Some(100),
        member_count: Some(1),
        members: Vec::new(),
        mfa_level: MfaLevel::None,
        name: String::from("guild"),
        owner_id: UserId(2),
        owner: Some(true),
        permissions: Some(Permissions::SEND_MESSAGES),
        preferred_locale: String::from("en-US"),
        premium_subscription_count: Some(0),
        premium_tier: PremiumTier::None,
        presences: Vec::new(),
        region: String::from("us-east"),
        roles: Vec::new(),
        rules_channel_id: None,
        splash: None,
        system_channel_flags: SystemChannelFlags::empty(),
        system_channel_id: Some(ChannelId(5)),
        unavailable: false,
        vanity_url_code: None,
        verification_level: VerificationLevel::Low,
        voice_states: Vec::new(),
        widget_channel_id: None,
        widget_enabled: Some(false),
    }
}

#[test]
fn user_and_current_user_from_their_payloads() {
    assert_eq!(UserEntity::from(user(2)), user_entity(2));
    assert_eq!(user_ids(&vec![user(3), user(1), user(3)]), vec![UserId(3), UserId(1), UserId(3)]);
    assert_eq!(user_ids(&Vec::new()), Vec::<UserId>::new());
    assert_eq!(user_entities(vec![user(3), user(1)]), vec![user_entity(3), user_entity(1)]);
    assert_eq!(
        CurrentUserEntity::from(CurrentUser {
            avatar: None,
            bot: true,
            discriminator: String::from("0001"),
            email: None,
            flags: None,
            id: UserId(2),
            mfa_enabled: false,
            name: String::from("user"),
            premium_type: None,
            public_flags: None,
            verified: Some(false),
        }),
        CurrentUserEntity {
            avatar: None,
            bot: true,
            discriminator: String::from("0001"),
            email: None,
            flags: None,
            id: UserId(2),
            mfa_enabled: false,
            name: String::from("user"),
            premium_type: None,
            public_flags: None,
            verified: Some(false),
        }
    );
}

#[test]
fn attachment_takes_the_id_of_its_message() {
    assert_eq!(
        AttachmentEntity::from((MessageId(100), attachment(3))),
        AttachmentEntity {
            filename: String::from("f3.png"),
            height: Some(600),
            id: AttachmentId(3),
            message_id: MessageId(100),
            proxy_url: String::from("proxy"),
            size: 123,
            url: String::from("url"),
            width: None,
        }
    );
    assert_eq!(attachment_ids(&vec![attachment(3), attachment(1)]), vec![AttachmentId(3), AttachmentId(1)]);
    let entities = attachment_entities(MessageId(9), vec![attachment(3), attachment(1)]);
    assert_eq!(entities.len(), 2);
    assert_eq!(entities[1], AttachmentEntity::from((MessageId(9), attachment(1))));
}

#[test]
fn channels_from_their_payloads() {
    let category = CategoryChannel {
        guild_id: Some(GuildId(1)),
        id: ChannelId(4),
        kind: ChannelType::GuildCategory,
        name: String::from("category"),
        permission_overwrites: Vec::new(),
        position: -1,
    };
    assert_eq!(
        CategoryChannelEntity::from(category.clone()),
        CategoryChannelEntity {
            guild_id: Some(GuildId(1)),
            id: ChannelId(4),
            kind: ChannelType::GuildCategory,
            name: String::from("category"),
            permission_overwrites: Vec::new(),
            position: -1,
        }
    );
    let text = TextChannel {
        guild_id: None,
        id: ChannelId(5),
        kind: ChannelType::GuildText,
        last_message_id: Some(MessageId(100)),
        last_pin_timestamp: Some(String::from("2012")),
        name: String::from("text"),
        nsfw: true,
        permission_overwrites: Vec::new(),
        parent_id: Some(ChannelId(4)),
        position: 2,
        rate_limit_per_user: Some(5),
        topic: Some(String::from("topic")),
    };
    assert_eq!(
        TextChannelEntity::from(text.clone()),
        TextChannelEntity {
            guild_id: None,
            id: ChannelId(5),
            kind: ChannelType::GuildText,
            last_message_id: Some(MessageId(100)),
            last_pin_timestamp: Some(String::from("2012")),
            name: String::from("text"),
            nsfw: true,
            permission_overwrites: Vec::new(),
            parent_id: Some(ChannelId(4)),
            position: 2,
            rate_limit_per_user: Some(5),
            topic: Some(String::from("topic")),
        }
    );
    let voice = VoiceChannel {
        bitrate: 96_000,
        guild_id: Some(GuildId(1)),
        id: ChannelId(6),
        kind: ChannelType::GuildVoice,
        name: String::from("voice"),
        permission_overwrites: Vec::new(),
        parent_id: None,
        position: 3,
        user_limit: Some(3),
    };
    assert_eq!(
        VoiceChannelEntity::from(voice.clone()),
        VoiceChannelEntity {
            bitrate: 96_000,
            guild_id: Some(GuildId(1)),
            id: ChannelId(6),
            kind: ChannelType::GuildVoice,
            name: String::from("voice"),
            permission_overwrites: Vec::new(),
            parent_id: None,
            position: 3,
            user_limit: Some(3),
        }
    );
    let parted = guild_channel_entities(vec![
        GuildChannel::Voice(voice.clone()),
        GuildChannel::Text(text.clone()),
        GuildChannel::Category(category.clone()),
        GuildChannel::Text(TextChannel { id: ChannelId(15), ..text.clone() }),
    ]);
    assert_eq!(parted.category_channels, vec![CategoryChannelEntity::from(category)]);
    assert_eq!(parted.voice_channels, vec![VoiceChannelEntity::from(voice)]);
    assert_eq!(
        parted.text_channels,
        vec![
            TextChannelEntity::from(text.clone()),
            TextChannelEntity::from(TextChannel { id: ChannelId(15), ..text })
        ]
    );
}

#[test]
fn group_and_private_channel_keep_the_ids_of_their_recipients() {
    let group = Group {
        application_id: Some(ApplicationId(1)),
        icon: Some(String::from("icon")),
        id: ChannelId(3),
        kind: ChannelType::Group,
        last_message_id: None,
        last_pin_timestamp: None,
        name: Some(String::from("group")),
        owner_id: UserId(2),
        recipients: vec![user(2), user(9), user(4)],
    };
    let expected = GroupEntity {
        application_id: Some(ApplicationId(1)),
        icon: Some(String::from("icon")),
        id: ChannelId(3),
        kind: ChannelType::Group,
        last_message_id: None,
        last_pin_timestamp: None,
        name: Some(String::from("group")),
        owner_id: UserId(2),
        recipient_ids: vec![UserId(2), UserId(9), UserId(4)],
    };
    assert_eq!(GroupEntity::from(group.clone()), expected);
    assert_eq!(
        GroupEntity::with_users(group),
        (expected, vec![user_entity(2), user_entity(9), user_entity(4)])
    );

    let private = PrivateChannel {
        id: ChannelId(7),
        last_message_id: Some(MessageId(1)),
        last_pin_timestamp: None,
        kind: ChannelType::Private,
        recipients: vec![user(9), user(2)],
    };
    let expected = PrivateChannelEntity {
        id: ChannelId(7),
        last_message_id: Some(MessageId(1)),
        last_pin_timestamp: None,
        kind: ChannelType::Private,
        recipient_id: Some(UserId(9)),
    };
    assert_eq!(PrivateChannelEntity::from(private.clone()), expected);
    assert_eq!(PrivateChannelEntity::with_users(private.clone()).1, vec![user_entity(9), user_entity(2)]);
    // a private channel without recipients has none
    let alone = PrivateChannel { recipients: Vec::new(), ..private };
    assert_eq!(PrivateChannelEntity::from(alone).recipient_id, None);
}

#[test]
fn message_keeps_ids_in_place_of_author_and_attachments() {
    let expected = MessageEntity {
        activity: None,
        application_id: Some(ApplicationId(77)),
        attachments: vec![AttachmentId(3), AttachmentId(1), AttachmentId(2)],
        author_id: UserId(2),
        channel_id: ChannelId(5),
        content: String::from("content"),
        edited_timestamp: None,
        embeds: Vec::new(),
        flags: None,
        guild_id: Some(GuildId(1)),
        id: MessageId(100),
        kind: MessageType::Regular,
        mention_channels: vec![ChannelId(8)],
        mention_everyone: false,
        mention_roles: vec![RoleId(12)],
        mentions: vec![UserId(9)],
        pinned: true,
        reactions: Vec::new(),
        timestamp: String::from("2012-11-21T12:00:00.40000+00:00"),
        tts: false,
        webhook_id: Some(WebhookId(4)),
    };
    assert_eq!(MessageEntity::from(message()), expected);
    let (entity, attachments, author) = MessageEntity::with_parts(message());
    assert_eq!(entity, expected);
    assert_eq!(author, user_entity(2));
    assert_eq!(
        attachments,
        vec![
            AttachmentEntity::from((MessageId(100), attachment(3))),
            AttachmentEntity::from((MessageId(100), attachment(1))),
            AttachmentEntity::from((MessageId(100), attachment(2))),
        ]
    );
}

fn empty_update() -> MessageUpdate {
    MessageUpdate {
        attachments: None,
        author: None,
        channel_id: ChannelId(5),
        content: None,
        edited_timestamp: None,
        embeds: None,
        guild_id: None,
        id: MessageId(100),
        kind: None,
        mention_everyone: None,
        mention_roles: None,
        mentions: None,
        pinned: None,
        timestamp: None,
        tts: None,
    }
}

#[test]
fn message_update_overwrites_only_what_it_carries() {
    let stored = MessageEntity::from(message());
    // an update that carries nothing changes nothing but id and channel
    assert_eq!(stored.clone().update(empty_update()), stored);
    let moved = stored.clone().update(MessageUpdate { channel_id: ChannelId(50), id: MessageId(101), ..empty_update() });
    assert_eq!(moved, MessageEntity { channel_id: ChannelId(50), id: MessageId(101), ..stored.clone() });

    let update = MessageUpdate {
        attachments: Some(vec![attachment(9)]),
        author: Some(user(4)),
        channel_id: ChannelId(5),
        content: Some(String::from("new")),
        edited_timestamp: Some(String::from("2013")),
        embeds: Some(Vec::new()),
        guild_id: Some(GuildId(8)),
        id: MessageId(100),
        kind: Some(MessageType::Call),
        mention_everyone: Some(true),
        mention_roles: Some(Vec::new()),
        mentions: Some(vec![UserId(1), UserId(2)]),
        pinned: Some(false),
        timestamp: Some(String::from("2014")),
        tts: Some(true),
    };
    assert_eq!(
        stored.clone().update(update),
        MessageEntity {
            activity: None,
            application_id: Some(ApplicationId(77)),
            attachments: vec![AttachmentId(9)],
            author_id: UserId(4),
            channel_id: ChannelId(5),
            content: String::from("new"),
            edited_timestamp: Some(String::from("2013")),
            embeds: Vec::new(),
            flags: None,
            guild_id: Some(GuildId(8)),
            id: MessageId(100),
            kind: MessageType::Call,
            mention_channels: vec![ChannelId(8)],
            mention_everyone: true,
            mention_roles: Vec::new(),
            mentions: vec![UserId(1), UserId(2)],
            pinned: false,
            reactions: Vec::new(),
            timestamp: String::from("2014"),
            tts: true,
            webhook_id: Some(WebhookId(4)),
        }
    );
    // an edited time and a guild that the update lacks stay
    let once = stored.update(MessageUpdate {
        edited_timestamp: Some(String::from("2013")),
        guild_id: Some(GuildId(8)),
        ..empty_update()
    });
    let twice = once.clone().update(empty_update());
    assert_eq!(twice.edited_timestamp, Some(String::from("2013")));
    assert_eq!(twice.guild_id, Some(GuildId(8)));
}

#[test]
fn member_from_its_payload_and_from_an_update() {
    let expected = MemberEntity {
        deaf: true,
        guild_id: GuildId(1),
        hoisted_role_id: Some(RoleId(12)),
        joined_at: Some(String::from("2012")),
        mute: false,
        nick: Some(String::from("nick")),
        premium_since: None,
        role_ids: vec![RoleId(12), RoleId(13)],
        user_id: UserId(2),
    };
    assert_eq!(MemberEntity::from(member(1, 2)), expected);
    assert_eq!(MemberEntity::with_user(member(1, 2)), (expected.clone(), user_entity(2)));
    assert_eq!(
        member_entities(vec![member(1, 2), member(1, 3)]),
        (
            vec![expected.clone(), MemberEntity { user_id: UserId(3), ..expected.clone() }],
            vec![user_entity(2), user_entity(3)]
        )
    );

    let update = MemberUpdate {
        guild_id: GuildId(1),
        joined_at: String::from("2013"),
        nick: None,
        premium_since: Some(String::from("2014")),
        roles: vec![RoleId(5)],
        user: user(2),
    };
    assert_eq!(
        MemberEntity::from_update((update.clone(), expected.clone())),
        MemberEntity {
            deaf: true,
            guild_id: GuildId(1),
            hoisted_role_id: Some(RoleId(12)),
            joined_at: Some(String::from("2013")),
            mute: false,
            nick: Some(String::from("nick")),
            premium_since: Some(String::from("2014")),
            role_ids: vec![RoleId(5)],
            user_id: UserId(2),
        }
    );
    let stored = MemberEntity { premium_since: Some(String::from("2011")), ..expected };
    let update = MemberUpdate { nick: Some(String::from("new")), premium_since: None, ..update };
    let (merged, user) = MemberEntity::with_updated_user((update, stored));
    assert_eq!(merged.nick, Some(String::from("new")));
    assert_eq!(merged.premium_since, Some(String::from("2011")));
    assert_eq!(user, user_entity(2));
}

#[test]
fn presence_from_its_payload_and_from_an_update() {
    let presence = Presence {
        activities: vec![activity("a")],
        client_status: client_status(),
        guild_id: GuildId(1),
        status: Status::Idle,
        user: UserOrId::User(user(2)),
    };
    assert_eq!(
        PresenceEntity::from(presence.clone()),
        PresenceEntity {
            activities: vec![activity("a")],
            client_status: client_status(),
            guild_id: GuildId(1),
            status: Status::Idle,
            user_id: UserId(2),
        }
    );
    assert_eq!(UserOrId::UserId { id: UserId(5) }.id(), UserId(5));
    assert_eq!(presence_entities(vec![presence.clone(), presence.clone()]).len(), 2);

    let update = PresenceUpdate {
        activities: vec![activity("b"), activity("c")],
        client_status: client_status(),
        game: Some(activity("game")),
        guild_id: GuildId(1),
        status: Status::DoNotDisturb,
        user: UserOrId::UserId { id: UserId(405) },
    };
    assert_eq!(
        PresenceEntity::from_update(update.clone()),
        PresenceEntity {
            activities: vec![activity("game"), activity("b"), activity("c")],
            client_status: client_status(),
            guild_id: GuildId(1),
            status: Status::DoNotDisturb,
            user_id: UserId(405),
        }
    );
    assert_eq!(
        PresenceEntity::from_update(PresenceUpdate { game: None, ..update }).activities,
        vec![activity("b"), activity("c")]
    );
}

#[test]
fn emoji_role_and_voice_state_take_their_guild() {
    let emoji = Emoji {
        animated: true,
        available: false,
        id: EmojiId(200),
        managed: true,
        name: String::from("emoji"),
        require_colons: true,
        roles: vec![RoleId(12)],
        user: Some(user(2)),
    };
    let expected = EmojiEntity {
        animated: true,
        available: false,
        guild_id: GuildId(1),
        id: EmojiId(200),
        managed: true,
        name: String::from("emoji"),
        require_colons: true,
        role_ids: vec![RoleId(12)],
        user_id: Some(UserId(2)),
    };
    assert_eq!(EmojiEntity::from((GuildId(1), emoji.clone())), expected);
    assert_eq!(EmojiEntity::from((GuildId(1), Emoji { user: None, ..emoji.clone() })).user_id, None);
    assert_eq!(emoji_entities(GuildId(1), vec![emoji]), vec![expected]);

    let role = Role {
        color: 0xff00ff,
        hoist: true,
        id: RoleId(12),
        managed: false,
        mentionable: true,
        name: String::from("role"),
        permissions: Permissions::SEND_MESSAGES,
        position: 1,
    };
    let expected = RoleEntity {
        color: 0xff00ff,
        guild_id: GuildId(3),
        hoist: true,
        id: RoleId(12),
        managed: false,
        mentionable: true,
        name: String::from("role"),
        permissions: Permissions::SEND_MESSAGES,
        position: 1,
    };
    assert_eq!(RoleEntity::from((role.clone(), GuildId(3))), expected);
    assert_eq!(role_entities(GuildId(3), vec![role]), vec![expected]);

    let state = VoiceState {
        channel_id: None,
        deaf: false,
        guild_id: Some(GuildId(50)),
        member: Some(member(1, 2)),
        mute: true,
        self_deaf: false,
        self_mute: true,
        self_stream: false,
        session_id: String::from("session"),
        suppress: true,
        token: Some(String::from("token")),
        user_id: UserId(2),
    };
    let expected = VoiceStateEntity {
        channel_id: None,
        deaf: false,
        guild_id: GuildId(1),
        mute: true,
        self_deaf: false,
        self_mute: true,
        self_stream: false,
        session_id: String::from("session"),
        suppress: true,
        token: Some(String::from("token")),
        user_id: UserId(2),
    };
    // the guild is the one that is given, not the one of the payload
    assert_eq!(VoiceStateEntity::from((state.clone(), GuildId(1))), expected);
    assert_eq!(voice_state_entities(GuildId(1), vec![state]), vec![expected]);
    assert_eq!(user_halves(vec![(GuildId(1), UserId(2)), (GuildId(1), UserId(9))]), vec![UserId(2), UserId(9)]);
}

#[test]
fn guild_from_its_payload_and_from_an_update() {
    let mut whole = guild();
    whole.members = vec![member(1, 2)];
    let (entity, children) = GuildEntity::with_children(whole.clone());
    assert_eq!(entity, GuildEntity::from(whole));
    assert_eq!(children.members, vec![member(1, 2)]);
    assert!(children.channels.is_empty());
    assert_eq!(entity.name, "guild");
    assert_eq!(entity.afk_timeout, 300);
    assert_eq!(entity.permissions, Some(Permissions::SEND_MESSAGES));
    assert_eq!(entity.features, vec![String::from("feature")]);
    assert_eq!(entity.lazy, Some(true));

    let partial = PartialGuild {
        id: GuildId(1),
        afk_channel_id: None,
        afk_timeout: 60,
        application_id: None,
        banner: None,
        default_message_notifications: DefaultMessageNotificationLevel::All,
        description: None,
        discovery_splash: Some(String::from("splash")),
        explicit_content_filter: ExplicitContentFilter::AllMembers,
        features: Vec::new(),
        icon: None,
        max_members: None,
        max_presences: Some(5),
        member_count: None,
        mfa_level: MfaLevel::Elevated,
        name: String::from("new guild"),
        owner_id: UserId(9),
        owner: None,
        permissions: None,
        preferred_locale: String::from("de"),
        premium_subscription_count: None,
        premium_tier: PremiumTier::Tier1,
        region: String::from("eu"),
        rules_channel_id: None,
        splash: None,
        system_channel_flags: SystemChannelFlags::SUPPRESS_JOIN_NOTIFICATIONS,
        system_channel_id: None,
        verification_level: VerificationLevel::High,
        vanity_url_code: None,
        widget_channel_id: Some(ChannelId(4)),
        widget_enabled: None,
    };
    let updated = entity.clone().update(partial);
    assert_eq!(
        updated,
        GuildEntity {
            // what the update carries
            afk_timeout: 60,
            default_message_notifications: DefaultMessageNotificationLevel::All,
            discovery_splash: Some(String::from("splash")),
            explicit_content_filter: ExplicitContentFilter::AllMembers,
            features: Vec::new(),
            max_presences: Some(5),
            mfa_level: MfaLevel::Elevated,
            name: String::from("new guild"),
            owner_id: UserId(9),
            preferred_locale: String::from("de"),
            premium_tier: PremiumTier::Tier1,
            region: String::from("eu"),
            system_channel_flags: SystemChannelFlags::SUPPRESS_JOIN_NOTIFICATIONS,
            verification_level: VerificationLevel::High,
            widget_channel_id: Some(ChannelId(4)),
            // the rest is what was stored: the optional fields that the
            // update lacks, and what no update carries
            ..entity.clone()
        }
    );
    assert_eq!(updated.afk_channel_id, Some(ChannelId(6)));
    assert_eq!(updated.banner, Some(String::from("banner")));
    assert_eq!(updated.description, Some(String::from("a")));
    assert_eq!(updated.large, true);
    assert_eq!(updated.joined_at, Some(String::from("2012")));

    assert_eq!(entity.clone().with_unavailable(true), GuildEntity { unavailable: true, ..entity.clone() });
    assert_eq!(entity.clone().with_unavailable(false), entity);
}
