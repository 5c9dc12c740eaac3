//! The cache: one repository per entity type over a backend, and the rules
//! by which an event of the gateway changes what the repositories hold.

use vstd::prelude::*;
use crate::backend::{Backend, CachePolicy, CacheView};
use crate::entity::Entity;
use crate::entity::channel::{
    category_channels_of, guild_channel_entities, text_channels_of, voice_channels_of,
};
use crate::entity::channel::attachment::{attachment_entities_of, AttachmentEntity};
use crate::entity::channel::category_channel::CategoryChannelEntity;
use crate::entity::channel::group::GroupEntity;
use crate::entity::channel::message::MessageEntity;
use crate::entity::channel::private_channel::PrivateChannelEntity;
use crate::entity::channel::text_channel::TextChannelEntity;
use crate::entity::channel::voice_channel::VoiceChannelEntity;
use crate::entity::gateway::presence::{presence_entities, presence_entities_of, PresenceEntity};
use crate::entity::guild::GuildEntity;
use crate::entity::guild::emoji::{emoji_entities, emoji_entities_of, EmojiEntity};
use crate::entity::guild::member::{
    member_entities, member_entities_of, member_users_of, MemberEntity,
};
use crate::entity::guild::role::{role_entities, role_entities_of, RoleEntity};
use crate::entity::user::{user_entities_of, UserEntity};
use crate::entity::user::current_user::CurrentUserEntity;
use crate::entity::voice::state::{voice_state_entities, voice_state_entities_of, VoiceStateEntity};
use crate::id::{AttachmentId, ChannelId, EmojiId, GuildId, MessageId, RoleId, UserId};
use crate::lemmas::lemma_push_to_set;
use crate::model::channel::{Channel, GuildChannel};
use crate::model::gateway::{
    ChannelCreate, ChannelDelete, ChannelPinsUpdate, ChannelUpdate, Event, GuildCreate, GuildDelete,
    GuildEmojisUpdate, GuildUpdate, MemberAdd, MemberChunk, MemberRemove, MemberUpdate,
    MessageCreate, MessageDelete, MessageDeleteBulk, MessageUpdate, PresenceUpdate, Ready,
    RoleCreate, RoleDelete, RoleUpdate, UserUpdate, VoiceStateUpdate,
};
use crate::repository::{
    remove_in_guild, upsert_all, upserted, without_guild, Repository, SingleEntityRepository,
};

verus! {

/// The cache, a container over a backend that allows you to retrieve and work
/// with entities.
pub struct Cache<B: Backend> {
    /// The backend that made the repositories.
    pub backend: B,
    /// Repository for working with attachments.
    pub attachments: B::AttachmentRepository,
    /// Repository for working with category channels.
    pub category_channels: B::CategoryChannelRepository,
    /// Repository for working with the current user.
    pub current_user: B::CurrentUserRepository,
    /// Repository for working with emojis.
    pub emojis: B::EmojiRepository,
    /// Repository for working with groups.
    pub groups: B::GroupRepository,
    /// Repository for working with guilds.
    pub guilds: B::GuildRepository,
    /// Repository for working with members.
    pub members: B::MemberRepository,
    /// Repository for working with messages.
    pub messages: B::MessageRepository,
    /// Repository for working with presences.
    pub presences: B::PresenceRepository,
    /// Repository for working with private channels.
    pub private_channels: B::PrivateChannelRepository,
    /// Repository for working with roles.
    pub roles: B::RoleRepository,
    /// Repository for working with text channels.
    pub text_channels: B::TextChannelRepository,
    /// Repository for working with users.
    pub users: B::UserRepository,
    /// Repository for working with voice channels.
    pub voice_channels: B::VoiceChannelRepository,
    /// Repository for working with voice state.
    pub voice_states: B::VoiceStateRepository,
}

impl<B: Backend> View for Cache<B> {
    type V = CacheView;

    open spec fn view(&self) -> CacheView {
        CacheView {
            attachments: self.attachments.entries(),
            category_channels: self.category_channels.entries(),
            current_user: self.current_user.entity(),
            emojis: self.emojis.entries(),
            groups: self.groups.entries(),
            guilds: self.guilds.entries(),
            members: self.members.entries(),
            messages: self.messages.entries(),
            presences: self.presences.entries(),
            private_channels: self.private_channels.entries(),
            roles: self.roles.entries(),
            text_channels: self.text_channels.entries(),
            users: self.users.entries(),
            voice_channels: self.voice_channels.entries(),
            voice_states: self.voice_states.entries(),
        }
    }
}

/// The first error of two results, or `Ok` if there is none.
pub fn first_error<Error>(first: Result<(), Error>, second: Result<(), Error>) -> (both: Result<(), Error>)
    ensures
        both is Ok <==> first is Ok && second is Ok,
        first is Err ==> both == first,
        first is Ok ==> both == second,
{
    match first {
        Ok(()) => second,
        Err(why) => Err(why),
    }
}

/// What an upsert of `entity` makes of the slot of a repository that holds
/// one entity at most.
pub open spec fn replaced<E>(slot: Option<E>, accepts: bool, entity: E) -> Option<E> {
    if accepts {
        Some(entity)
    } else {
        slot
    }
}

/// What the upsert of each of the entities in turn makes of the entries of
/// a repository that keeps all.
pub open spec fn upserted_all<E: Entity>(entries: Map<E::Id, E>, accepts: bool, entities: Seq<E>) -> Map<
    E::Id,
    E,
> {
    if accepts {
        upsert_all(entries, entities)
    } else {
        entries
    }
}

impl<B: Backend + Default> Cache<B> {
    /// Create a new cache with a default instance of the backend. The cache
    /// holds what the backend has stored.
    pub fn new() -> (cache: Self)
        ensures
            cache.wf(),
            cache@ == cache.backend.stored(),
            cache.policy() == cache.backend.policy(),
            call_ensures(B::default, (), cache.backend),
    {
        Self::with_backend(B::default())
    }
}

impl<B: Backend> Cache<B> {
    /// Whether each repository of the cache is as its backend keeps it.
    pub open spec fn wf(&self) -> bool {
        &&& self.attachments.wf()
        &&& self.category_channels.wf()
        &&& self.current_user.wf()
        &&& self.emojis.wf()
        &&& self.groups.wf()
        &&& self.guilds.wf()
        &&& self.members.wf()
        &&& self.messages.wf()
        &&& self.presences.wf()
        &&& self.private_channels.wf()
        &&& self.roles.wf()
        &&& self.text_channels.wf()
        &&& self.users.wf()
        &&& self.voice_channels.wf()
        &&& self.voice_states.wf()
    }

    /// Which of the repositories store what is upserted.
    pub open spec fn policy(&self) -> CachePolicy {
        CachePolicy {
            attachments: self.attachments.accepts(),
            category_channels: self.category_channels.accepts(),
            current_user: self.current_user.accepts(),
            emojis: self.emojis.accepts(),
            groups: self.groups.accepts(),
            guilds: self.guilds.accepts(),
            members: self.members.accepts(),
            messages: self.messages.accepts(),
            presences: self.presences.accepts(),
            private_channels: self.private_channels.accepts(),
            roles: self.roles.accepts(),
            text_channels: self.text_channels.accepts(),
            users: self.users.accepts(),
            voice_channels: self.voice_channels.accepts(),
            voice_states: self.voice_states.accepts(),
        }
    }

    /// Create a new cache with a provided instance of the backend. The cache
    /// holds what the backend has stored.
    pub fn with_backend(backend: B) -> (cache: Self)
        ensures
            cache.wf(),
            cache@ == backend.stored(),
            cache.policy() == backend.policy(),
            cache.backend == backend,
    {
        let attachments = backend.attachments();
        let category_channels = backend.category_channels();
        let current_user = backend.current_user();
        let emojis = backend.emojis();
        let groups = backend.groups();
        let guilds = backend.guilds();
        let members = backend.members();
        let messages = backend.messages();
        let presences = backend.presences();
        let private_channels = backend.private_channels();
        let roles = backend.roles();
        let text_channels = backend.text_channels();
        let users = backend.users();
        let voice_channels = backend.voice_channels();
        let voice_states = backend.voice_states();

        Cache {
            attachments,
            backend,
            category_channels,
            current_user,
            emojis,
            groups,
            guilds,
            members,
            messages,
            presences,
            private_channels,
            roles,
            text_channels,
            users,
            voice_channels,
            voice_states,
        }
    }

    /// Return an immutable reference to the backend.
    pub fn backend(&self) -> (backend: &B)
        ensures
            *backend == self.backend,
    {
        &self.backend
    }

    /// Update the cache with an event.
    ///
    /// The writes of an event that do not depend on each other are all
    /// made, also after one of them has failed, and nothing is rolled back:
    /// the result is the first error met. A write that builds on an earlier
    /// step is made only if that step succeeded: a merged entity is upserted
    /// only after it could be fetched, and the record of a guild is removed
    /// only after everything under the guild.
    pub fn process(&mut self, event: Event) -> (done: Result<(), B::Error>)
        requires
            old(self).wf(),
        ensures
            final(self).wf(),
            final(self).policy() == old(self).policy(),
            B::reliable() ==> done is Ok,
            done is Ok ==> event.processed(*old(self), final(self)@),
    {
        event.process(self)
    }
}

/// What an event, or the payload of one, does to a cache.
pub trait CacheUpdate<B: Backend>: Sized {
    /// Whether `after` is what the cache holds once the event has been
    /// processed without an error, where `before` is the cache at the start.
    spec fn processed(self, before: Cache<B>, after: CacheView) -> bool;

    /// Make the writes that the event asks for.
    fn process(self, cache: &mut Cache<B>) -> (done: Result<(), B::Error>)
        requires
            old(cache).wf(),
        ensures
            final(cache).wf(),
            final(cache).policy() == old(cache).policy(),
            B::reliable() ==> done is Ok,
            done is Ok ==> self.processed(*old(cache), final(cache)@),
    ;
}

/// The value of a field after a patch: that of the patch where it has one,
/// and else what was stored.
pub open spec fn patched<T>(patch: Option<T>, stored: Option<T>) -> Option<T> {
    match patch {
        Some(value) => Some(value),
        None => stored,
    }
}

/// Lay a field of a patch over what was stored: a field that the patch lacks
/// never overwrites stored data.
pub fn patch_field<T>(patch: Option<T>, stored: Option<T>) -> (value: Option<T>)
    ensures
        value == patched(patch, stored),
{
    match patch {
        Some(value) => Some(value),
        None => stored,
    }
}

/// The attachments of the messages that the ids name.
pub open spec fn attachments_of(messages: Map<MessageId, MessageEntity>, ids: Seq<MessageId>) -> Set<
    AttachmentId,
> {
    Set::new(
        |attachment_id: AttachmentId|
            exists|i: int|
                0 <= i < ids.len() && messages.contains_key(#[trigger] ids[i])
                    && messages[ids[i]].attachments@.contains(attachment_id),
    )
}

/// Whether `after` is what the cache holds once a channel has been upserted
/// into the repository of its kind, and the users that it came with into
/// that of the users.
pub open spec fn channel_upserted<B: Backend>(channel: Channel, before: Cache<B>, after: CacheView) -> bool {
    match channel {
        Channel::Group(group) => exists|entity: GroupEntity| #[trigger]
            entity.is_from(group) && after == (CacheView {
                groups: upserted(before@.groups, before.groups.accepts(), Set::empty(), entity),
                users: upserted_all(before@.users, before.users.accepts(), user_entities_of(group.recipients@)),
                ..before@
            }),
        Channel::Guild(GuildChannel::Category(channel)) => after == (CacheView {
            category_channels: upserted(
                before@.category_channels,
                before.category_channels.accepts(),
                Set::empty(),
                CategoryChannelEntity::spec_from(channel),
            ),
            ..before@
        }),
        Channel::Guild(GuildChannel::Text(channel)) => after == (CacheView {
            text_channels: upserted(
                before@.text_channels,
                before.text_channels.accepts(),
                Set::empty(),
                TextChannelEntity::spec_from(channel),
            ),
            ..before@
        }),
        Channel::Guild(GuildChannel::Voice(channel)) => after == (CacheView {
            voice_channels: upserted(
                before@.voice_channels,
                before.voice_channels.accepts(),
                Set::empty(),
                VoiceChannelEntity::spec_from(channel),
            ),
            ..before@
        }),
        Channel::Private(channel) => after == (CacheView {
            private_channels: upserted(
                before@.private_channels,
                before.private_channels.accepts(),
                Set::empty(),
                PrivateChannelEntity::spec_from(channel),
            ),
            users: upserted_all(before@.users, before.users.accepts(), user_entities_of(channel.recipients@)),
            ..before@
        }),
    }
}

/// Upsert a channel into the repository of its kind, and the users that it
/// came with into that of the users.
pub fn upsert_channel<B: Backend>(cache: &mut Cache<B>, channel: Channel) -> (done: Result<(), B::Error>)
    requires
        old(cache).wf(),
    ensures
        final(cache).wf(),
        final(cache).policy() == old(cache).policy(),
        B::reliable() ==> done is Ok,
        done is Ok ==> channel_upserted(channel, *old(cache), final(cache)@),
{
    proof {
        B::lemma_repositories();
    }
    match channel {
        Channel::Group(group) => {
            let (entity, users) = GroupEntity::with_users(group);
            proof {
                cache.groups.lemma_keeps_all(entity);
            }
            let groups = cache.groups.upsert(entity);
            let users = cache.users.upsert_bulk(users);
            first_error(groups, users)
        },
        Channel::Guild(GuildChannel::Category(channel)) => {
            let entity = CategoryChannelEntity::from(channel);
            proof {
                cache.category_channels.lemma_keeps_all(entity);
            }
            cache.category_channels.upsert(entity)
        },
        Channel::Guild(GuildChannel::Text(channel)) => {
            let entity = TextChannelEntity::from(channel);
            proof {
                cache.text_channels.lemma_keeps_all(entity);
            }
            cache.text_channels.upsert(entity)
        },
        Channel::Guild(GuildChannel::Voice(channel)) => {
            let entity = VoiceChannelEntity::from(channel);
            proof {
                cache.voice_channels.lemma_keeps_all(entity);
            }
            cache.voice_channels.upsert(entity)
        },
        Channel::Private(channel) => {
            let (entity, users) = PrivateChannelEntity::with_users(channel);
            proof {
                cache.private_channels.lemma_keeps_all(entity);
            }
            let private_channels = cache.private_channels.upsert(entity);
            let users = cache.users.upsert_bulk(users);
            first_error(private_channels, users)
        },
    }
}

impl<B: Backend> CacheUpdate<B> for ChannelCreate {
    /// The channel is upserted into the repository of its kind, and the
    /// users that it came with into that of the users.
    open spec fn processed(self, before: Cache<B>, after: CacheView) -> bool {
        channel_upserted(self.0, before, after)
    }

    fn process(self, cache: &mut Cache<B>) -> (done: Result<(), B::Error>) {
        upsert_channel(cache, self.0)
    }
}

impl<B: Backend> CacheUpdate<B> for ChannelUpdate {
    /// The channel is upserted into the repository of its kind, and the
    /// users that it came with into that of the users.
    open spec fn processed(self, before: Cache<B>, after: CacheView) -> bool {
        channel_upserted(self.0, before, after)
    }

    fn process(self, cache: &mut Cache<B>) -> (done: Result<(), B::Error>) {
        upsert_channel(cache, self.0)
    }
}

impl<B: Backend> CacheUpdate<B> for ChannelDelete {
    /// The channel is removed from the repository of its kind.
    open spec fn processed(self, before: Cache<B>, after: CacheView) -> bool {
        match self.0 {
            Channel::Group(group) => after == (CacheView { groups: before@.groups.remove(group.id), ..before@ }),
            Channel::Guild(GuildChannel::Category(channel)) => after == (CacheView {
                category_channels: before@.category_channels.remove(channel.id),
                ..before@
            }),
            Channel::Guild(GuildChannel::Text(channel)) => after == (CacheView {
                text_channels: before@.text_channels.remove(channel.id),
                ..before@
            }),
            Channel::Guild(GuildChannel::Voice(channel)) => after == (CacheView {
                voice_channels: before@.voice_channels.remove(channel.id),
                ..before@
            }),
            Channel::Private(channel) => after == (CacheView {
                private_channels: before@.private_channels.remove(channel.id),
                ..before@
            }),
        }
    }

    fn process(self, cache: &mut Cache<B>) -> (done: Result<(), B::Error>) {
        proof {
            B::lemma_repositories();
        }
        match self.0 {
            Channel::Group(group) => cache.groups.remove(group.id),
            Channel::Guild(GuildChannel::Category(channel)) => cache.category_channels.remove(channel.id),
            Channel::Guild(GuildChannel::Text(channel)) => cache.text_channels.remove(channel.id),
            Channel::Guild(GuildChannel::Voice(channel)) => cache.voice_channels.remove(channel.id),
            Channel::Private(channel) => cache.private_channels.remove(channel.id),
        }
    }
}

impl<B: Backend> CacheUpdate<B> for ChannelPinsUpdate {
    /// The time of the last pin is laid over the stored channel with the
    /// id: a text channel where there is one, else a private channel, else
    /// a group. Where none is stored, nothing changes.
    open spec fn processed(self, before: Cache<B>, after: CacheView) -> bool {
        if before@.text_channels.contains_key(self.channel_id) {
            let stored = before@.text_channels[self.channel_id];
            after == (CacheView {
                text_channels: upserted(
                    before@.text_channels,
                    before.text_channels.accepts(),
                    Set::empty(),
                    TextChannelEntity {
                        last_pin_timestamp: patched(self.last_pin_timestamp, stored.last_pin_timestamp),
                        ..stored
                    },
                ),
                ..before@
            })
        } else if before@.private_channels.contains_key(self.channel_id) {
            let stored = before@.private_channels[self.channel_id];
            after == (CacheView {
                private_channels: upserted(
                    before@.private_channels,
                    before.private_channels.accepts(),
                    Set::empty(),
                    PrivateChannelEntity {
                        last_pin_timestamp: patched(self.last_pin_timestamp, stored.last_pin_timestamp),
                        ..stored
                    },
                ),
                ..before@
            })
        } else if before@.groups.contains_key(self.channel_id) {
            let stored = before@.groups[self.channel_id];
            after == (CacheView {
                groups: upserted(
                    before@.groups,
                    before.groups.accepts(),
                    Set::empty(),
                    GroupEntity {
                        last_pin_timestamp: patched(self.last_pin_timestamp, stored.last_pin_timestamp),
                        ..stored
                    },
                ),
                ..before@
            })
        } else {
            after == before@
        }
    }

    fn process(self, cache: &mut Cache<B>) -> (done: Result<(), B::Error>) {
        proof {
            B::lemma_repositories();
        }
        match cache.text_channels.get(self.channel_id) {
            Ok(Some(stored)) => {
                let last_pin_timestamp = patch_field(self.last_pin_timestamp, stored.last_pin_timestamp);
                let entity = TextChannelEntity { last_pin_timestamp, ..stored };
                proof {
                    cache.text_channels.lemma_keeps_all(entity);
                }
                return cache.text_channels.upsert(entity);
            },
            Ok(None) => {},
            Err(why) => {
                return Err(why);
            },
        }
        match cache.private_channels.get(self.channel_id) {
            Ok(Some(stored)) => {
                let last_pin_timestamp = patch_field(self.last_pin_timestamp, stored.last_pin_timestamp);
                let entity = PrivateChannelEntity { last_pin_timestamp, ..stored };
                proof {
                    cache.private_channels.lemma_keeps_all(entity);
                }
                return cache.private_channels.upsert(entity);
            },
            Ok(None) => {},
            Err(why) => {
                return Err(why);
            },
        }
        match cache.groups.get(self.channel_id) {
            Ok(Some(stored)) => {
                let last_pin_timestamp = patch_field(self.last_pin_timestamp, stored.last_pin_timestamp);
                let entity = GroupEntity { last_pin_timestamp, ..stored };
                proof {
                    cache.groups.lemma_keeps_all(entity);
                }
                cache.groups.upsert(entity)
            },
            Ok(None) => Ok(()),
            Err(why) => Err(why),
        }
    }
}

/// An update of the pins of a channel that is stored as a group, and as
/// nothing else, changes the group alone, and of the group the time of
/// the last pin alone: no text channel and no private channel is made or
/// changed.
pub proof fn lemma_pins_update_of_group<B: Backend>(before: Cache<B>, event: ChannelPinsUpdate, after: CacheView)
    requires
        before.wf(),
        event.processed(before, after),
        before@.groups.contains_key(event.channel_id),
        !before@.text_channels.contains_key(event.channel_id),
        !before@.private_channels.contains_key(event.channel_id),
    ensures
        after == (CacheView { groups: after.groups, ..before@ }),
        forall|id: ChannelId| id != event.channel_id ==> after.groups.get(id) == #[trigger] before@.groups.get(id),
        before.groups.accepts() ==> after.groups.get(event.channel_id) == Some(
            GroupEntity {
                last_pin_timestamp: patched(
                    event.last_pin_timestamp,
                    before@.groups[event.channel_id].last_pin_timestamp,
                ),
                ..before@.groups[event.channel_id]
            },
        ),
        !before.groups.accepts() ==> after.groups == before@.groups,
{
    before.groups.lemma_ids(event.channel_id);
}

impl<B: Backend> CacheUpdate<B> for GuildCreate {
    /// Everything that the guild arrived with is upserted into the
    /// repository of its kind: the channels, emojis, members, presences,
    /// roles and voice states, then the record of the guild, and the user
    /// of each member.
    open spec fn processed(self, before: Cache<B>, after: CacheView) -> bool {
        after == (CacheView {
            category_channels: upserted_all(
                before@.category_channels,
                before.category_channels.accepts(),
                category_channels_of(self.0.channels@),
            ),
            emojis: upserted_all(
                before@.emojis,
                before.emojis.accepts(),
                emoji_entities_of(self.0.id, self.0.emojis@),
            ),
            guilds: upserted(before@.guilds, before.guilds.accepts(), Set::empty(), GuildEntity::spec_from(self.0)),
            members: upserted_all(before@.members, before.members.accepts(), member_entities_of(self.0.members@)),
            presences: upserted_all(
                before@.presences,
                before.presences.accepts(),
                presence_entities_of(self.0.presences@),
            ),
            roles: upserted_all(before@.roles, before.roles.accepts(), role_entities_of(self.0.id, self.0.roles@)),
            text_channels: upserted_all(
                before@.text_channels,
                before.text_channels.accepts(),
                text_channels_of(self.0.channels@),
            ),
            users: upserted_all(before@.users, before.users.accepts(), member_users_of(self.0.members@)),
            voice_channels: upserted_all(
                before@.voice_channels,
                before.voice_channels.accepts(),
                voice_channels_of(self.0.channels@),
            ),
            voice_states: upserted_all(
                before@.voice_states,
                before.voice_states.accepts(),
                voice_state_entities_of(self.0.id, self.0.voice_states@),
            ),
            ..before@
        })
    }

    fn process(self, cache: &mut Cache<B>) -> (done: Result<(), B::Error>) {
        let (guild, children) = GuildEntity::with_children(self.0);
        let guild_id = guild.id;
        let channels = guild_channel_entities(children.channels);
        let emojis = emoji_entities(guild_id, children.emojis);
        let (members, users) = member_entities(children.members);
        let presences = presence_entities(children.presences);
        let roles = role_entities(guild_id, children.roles);
        let voice_states = voice_state_entities(guild_id, children.voice_states);
        proof {
            B::lemma_repositories();
            cache.guilds.lemma_keeps_all(guild);
        }
        let done = cache.category_channels.upsert_bulk(channels.category_channels);
        let done = first_error(done, cache.text_channels.upsert_bulk(channels.text_channels));
        let done = first_error(done, cache.voice_channels.upsert_bulk(channels.voice_channels));
        let done = first_error(done, cache.emojis.upsert_bulk(emojis));
        let done = first_error(done, cache.members.upsert_bulk(members));
        let done = first_error(done, cache.presences.upsert_bulk(presences));
        let done = first_error(done, cache.roles.upsert_bulk(roles));
        let done = first_error(done, cache.voice_states.upsert_bulk(voice_states));
        let done = first_error(done, cache.guilds.upsert(guild));
        first_error(done, cache.users.upsert_bulk(users))
    }
}

impl<B: Backend> CacheUpdate<B> for GuildDelete {
    /// Where the guild has only become unavailable, the stored guild is
    /// marked so, if there is one, and nothing else changes. Where the guild
    /// is gone for good, everything that is listed under it leaves: its
    /// channels, emojis, members, presences, roles and voice states, and
    /// then its own record.
    open spec fn processed(self, before: Cache<B>, after: CacheView) -> bool {
        if self.unavailable {
            match before@.guilds.get(self.id) {
                Some(stored) => after == (CacheView {
                    guilds: upserted(
                        before@.guilds,
                        before.guilds.accepts(),
                        Set::empty(),
                        stored.spec_with_unavailable(true),
                    ),
                    ..before@
                }),
                None => after == before@,
            }
        } else {
            after == (CacheView {
                category_channels: without_guild(before@.category_channels, self.id),
                emojis: without_guild(before@.emojis, self.id),
                guilds: before@.guilds.remove(self.id),
                members: without_guild(before@.members, self.id),
                presences: without_guild(before@.presences, self.id),
                roles: without_guild(before@.roles, self.id),
                text_channels: without_guild(before@.text_channels, self.id),
                voice_channels: without_guild(before@.voice_channels, self.id),
                voice_states: without_guild(before@.voice_states, self.id),
                ..before@
            })
        }
    }

    /// The record of the guild is removed after everything under the guild,
    /// and only if all of that could be removed: a guild that is gone must
    /// not leave entities behind that name it.
    fn process(self, cache: &mut Cache<B>) -> (done: Result<(), B::Error>) {
        proof {
            B::lemma_repositories();
        }
        if self.unavailable {
            return match cache.guilds.get(self.id) {
                Ok(Some(stored)) => {
                    let entity = stored.with_unavailable(true);
                    proof {
                        cache.guilds.lemma_keeps_all(entity);
                    }
                    cache.guilds.upsert(entity)
                },
                Ok(None) => Ok(()),
                Err(why) => Err(why),
            };
        }
        let done = remove_in_guild(&mut cache.category_channels, self.id);
        let done = first_error(done, remove_in_guild(&mut cache.text_channels, self.id));
        let done = first_error(done, remove_in_guild(&mut cache.voice_channels, self.id));
        let done = first_error(done, remove_in_guild(&mut cache.emojis, self.id));
        let done = first_error(done, remove_in_guild(&mut cache.members, self.id));
        let done = first_error(done, remove_in_guild(&mut cache.presences, self.id));
        let done = first_error(done, remove_in_guild(&mut cache.roles, self.id));
        let done = first_error(done, remove_in_guild(&mut cache.voice_states, self.id));
        match done {
            Ok(()) => cache.guilds.remove(self.id),
            Err(why) => Err(why),
        }
    }
}

/// Once a guild is gone for good, neither the guild nor anything that was
/// listed under it is found: none of its channels, emojis, members,
/// presences, roles and voice states.
pub proof fn lemma_guild_delete_cascades<B: Backend>(before: Cache<B>, event: GuildDelete, after: CacheView)
    requires
        !event.unavailable,
        event.processed(before, after),
    ensures
        after.guilds.get(event.id) is None,
        forall|id: ChannelId| #[trigger]
            before@.category_channels.contains_key(id) && before@.category_channels[id].guild_id == Some(event.id)
                ==> after.category_channels.get(id) is None,
        forall|id: ChannelId| #[trigger]
            before@.text_channels.contains_key(id) && before@.text_channels[id].guild_id == Some(event.id)
                ==> after.text_channels.get(id) is None,
        forall|id: ChannelId| #[trigger]
            before@.voice_channels.contains_key(id) && before@.voice_channels[id].guild_id == Some(event.id)
                ==> after.voice_channels.get(id) is None,
        forall|id: EmojiId| #[trigger]
            before@.emojis.contains_key(id) && before@.emojis[id].guild_id == event.id ==> after.emojis.get(id)
                is None,
        forall|id: (GuildId, UserId)| #[trigger]
            before@.members.contains_key(id) && before@.members[id].guild_id == event.id ==> after.members.get(
                id,
            ) is None,
        forall|id: (GuildId, UserId)| #[trigger]
            before@.presences.contains_key(id) && before@.presences[id].guild_id == event.id
                ==> after.presences.get(id) is None,
        forall|id: RoleId| #[trigger]
            before@.roles.contains_key(id) && before@.roles[id].guild_id == event.id ==> after.roles.get(id)
                is None,
        forall|id: (GuildId, UserId)| #[trigger]
            before@.voice_states.contains_key(id) && before@.voice_states[id].guild_id == event.id
                ==> after.voice_states.get(id) is None,
{
}

/// What is not listed under a guild stays as it was when the guild goes:
/// every entity of another guild or of none, and every user, message,
/// attachment, group and private channel.
pub proof fn lemma_guild_delete_spares<B: Backend>(before: Cache<B>, event: GuildDelete, after: CacheView)
    requires
        !event.unavailable,
        event.processed(before, after),
    ensures
        after.attachments == before@.attachments,
        after.current_user == before@.current_user,
        after.groups == before@.groups,
        after.messages == before@.messages,
        after.private_channels == before@.private_channels,
        after.users == before@.users,
        forall|id: GuildId| id != event.id ==> after.guilds.get(id) == #[trigger] before@.guilds.get(id),
        forall|id: (GuildId, UserId)| #[trigger]
            before@.members.contains_key(id) && before@.members[id].guild_id != event.id ==> after.members.get(
                id,
            ) == before@.members.get(id),
        forall|id: RoleId| #[trigger]
            before@.roles.contains_key(id) && before@.roles[id].guild_id != event.id ==> after.roles.get(id)
                == before@.roles.get(id),
{
}

/// When a guild becomes unavailable, nothing is removed: the stored guild
/// is marked unavailable and is otherwise as it was, and nothing else in
/// the cache changes.
pub proof fn lemma_guild_unavailable<B: Backend>(before: Cache<B>, event: GuildDelete, after: CacheView)
    requires
        before.wf(),
        event.unavailable,
        event.processed(before, after),
    ensures
        after == (CacheView { guilds: after.guilds, ..before@ }),
        forall|id: GuildId| #[trigger] before@.guilds.contains_key(id) ==> after.guilds.contains_key(id),
        forall|id: GuildId| id != event.id ==> after.guilds.get(id) == #[trigger] before@.guilds.get(id),
        before@.guilds.contains_key(event.id) && before.guilds.accepts() ==> after.guilds[event.id] == (
        GuildEntity { unavailable: true, ..before@.guilds[event.id] }),
        !before.guilds.accepts() ==> after.guilds == before@.guilds,
{
    if before@.guilds.contains_key(event.id) {
        before.guilds.lemma_ids(event.id);
    }
}

impl<B: Backend> CacheUpdate<B> for GuildEmojisUpdate {
    /// Each of the emojis is upserted.
    open spec fn processed(self, before: Cache<B>, after: CacheView) -> bool {
        after == (CacheView {
            emojis: upserted_all(
                before@.emojis,
                before.emojis.accepts(),
                emoji_entities_of(self.guild_id, self.emojis@),
            ),
            ..before@
        })
    }

    fn process(self, cache: &mut Cache<B>) -> (done: Result<(), B::Error>) {
        proof {
            B::lemma_repositories();
        }
        cache.emojis.upsert_bulk(emoji_entities(self.guild_id, self.emojis))
    }
}

impl<B: Backend> CacheUpdate<B> for GuildUpdate {
    /// The fields that the update carries are laid over the stored guild.
    /// Where no guild is stored, nothing changes.
    open spec fn processed(self, before: Cache<B>, after: CacheView) -> bool {
        match before@.guilds.get(self.0.id) {
            Some(stored) => after == (CacheView {
                guilds: upserted(
                    before@.guilds,
                    before.guilds.accepts(),
                    Set::empty(),
                    GuildEntity::spec_update(stored, self.0),
                ),
                ..before@
            }),
            None => after == before@,
        }
    }

    fn process(self, cache: &mut Cache<B>) -> (done: Result<(), B::Error>) {
        proof {
            B::lemma_repositories();
        }
        match cache.guilds.get(self.0.id) {
            Ok(Some(stored)) => {
                let entity = stored.update(self.0);
                proof {
                    cache.guilds.lemma_keeps_all(entity);
                }
                cache.guilds.upsert(entity)
            },
            Ok(None) => Ok(()),
            Err(why) => Err(why),
        }
    }
}

impl<B: Backend> CacheUpdate<B> for MemberAdd {
    /// The member is upserted, and so is its user.
    open spec fn processed(self, before: Cache<B>, after: CacheView) -> bool {
        after == (CacheView {
            members: upserted(
                before@.members,
                before.members.accepts(),
                Set::empty(),
                MemberEntity::spec_from(self.0),
            ),
            users: upserted(before@.users, before.users.accepts(), Set::empty(), UserEntity::spec_from(self.0.user)),
            ..before@
        })
    }

    fn process(self, cache: &mut Cache<B>) -> (done: Result<(), B::Error>) {
        let (member, user) = MemberEntity::with_user(self.0);
        proof {
            B::lemma_repositories();
            cache.members.lemma_keeps_all(member);
            cache.users.lemma_keeps_all(user);
        }
        let members = cache.members.upsert(member);
        let users = cache.users.upsert(user);
        first_error(members, users)
    }
}

impl<B: Backend> CacheUpdate<B> for MemberChunk {
    /// Each of the members is upserted, and so is its user.
    open spec fn processed(self, before: Cache<B>, after: CacheView) -> bool {
        after == (CacheView {
            members: upserted_all(before@.members, before.members.accepts(), member_entities_of(self.members@)),
            users: upserted_all(before@.users, before.users.accepts(), member_users_of(self.members@)),
            ..before@
        })
    }

    fn process(self, cache: &mut Cache<B>) -> (done: Result<(), B::Error>) {
        proof {
            B::lemma_repositories();
        }
        let (members, users) = member_entities(self.members);
        let members = cache.members.upsert_bulk(members);
        let users = cache.users.upsert_bulk(users);
        first_error(members, users)
    }
}

impl<B: Backend> CacheUpdate<B> for MemberRemove {
    /// The member is removed. Its user stays.
    open spec fn processed(self, before: Cache<B>, after: CacheView) -> bool {
        after == (CacheView { members: before@.members.remove((self.guild_id, self.user.id)), ..before@ })
    }

    fn process(self, cache: &mut Cache<B>) -> (done: Result<(), B::Error>) {
        proof {
            B::lemma_repositories();
        }
        cache.members.remove((self.guild_id, self.user.id))
    }
}

impl<B: Backend> CacheUpdate<B> for MemberUpdate {
    /// The update is laid over the stored member; where no member is
    /// stored, the members stay as they are. The user of the update is
    /// upserted in either case.
    open spec fn processed(self, before: Cache<B>, after: CacheView) -> bool {
        after == (CacheView {
            members: match before@.members.get((self.guild_id, self.user.id)) {
                Some(stored) => upserted(
                    before@.members,
                    before.members.accepts(),
                    Set::empty(),
                    MemberEntity::spec_from_update((self, stored)),
                ),
                None => before@.members,
            },
            users: upserted(before@.users, before.users.accepts(), Set::empty(), UserEntity::spec_from(self.user)),
            ..before@
        })
    }

    fn process(self, cache: &mut Cache<B>) -> (done: Result<(), B::Error>) {
        proof {
            B::lemma_repositories();
        }
        match cache.members.get((self.guild_id, self.user.id)) {
            Ok(Some(stored)) => {
                let (member, user) = MemberEntity::with_updated_user((self, stored));
                proof {
                    cache.members.lemma_keeps_all(member);
                    cache.users.lemma_keeps_all(user);
                }
                let members = cache.members.upsert(member);
                let users = cache.users.upsert(user);
                first_error(members, users)
            },
            Ok(None) => {
                let user = UserEntity::from(self.user);
                proof {
                    cache.users.lemma_keeps_all(user);
                }
                cache.users.upsert(user)
            },
            Err(why) => {
                let user = UserEntity::from(self.user);
                let users = cache.users.upsert(user);
                first_error(Err(why), users)
            },
        }
    }
}

/// An update of a member that carries no nickname leaves the stored
/// nickname as it was, and one that carries no premium time leaves the
/// stored premium time; a member that is not stored is not made up.
pub proof fn lemma_member_update_keeps<B: Backend>(before: Cache<B>, event: MemberUpdate, after: CacheView)
    requires
        before.wf(),
        event.processed(before, after),
    ensures
        after.members.contains_key((event.guild_id, event.user.id)) == before@.members.contains_key(
            (event.guild_id, event.user.id),
        ),
        before@.members.contains_key((event.guild_id, event.user.id)) && event.nick is None ==> after.members[(
            event.guild_id,
            event.user.id,
        )].nick == before@.members[(event.guild_id, event.user.id)].nick,
        before@.members.contains_key((event.guild_id, event.user.id)) && event.premium_since is None
            ==> after.members[(event.guild_id, event.user.id)].premium_since == before@.members[(
            event.guild_id,
            event.user.id,
        )].premium_since,
{
}

impl<B: Backend> CacheUpdate<B> for MessageCreate {
    /// The message is upserted, and so are its attachments and its author.
    /// The repository of the messages may evict another message to make
    /// room.
    open spec fn processed(self, before: Cache<B>, after: CacheView) -> bool {
        exists|entity: MessageEntity| #[trigger]
            entity.is_from(self.0) && after == (CacheView {
                attachments: upserted_all(
                    before@.attachments,
                    before.attachments.accepts(),
                    attachment_entities_of(self.0.id, self.0.attachments@),
                ),
                messages: upserted(
                    before@.messages,
                    before.messages.accepts(),
                    before.messages.evicted_by(entity),
                    entity,
                ),
                users: upserted(
                    before@.users,
                    before.users.accepts(),
                    Set::empty(),
                    UserEntity::spec_from(self.0.author),
                ),
                ..before@
            })
    }

    fn process(self, cache: &mut Cache<B>) -> (done: Result<(), B::Error>) {
        let (message, attachments, author) = MessageEntity::with_parts(self.0);
        proof {
            B::lemma_repositories();
            cache.users.lemma_keeps_all(author);
        }
        let messages = cache.messages.upsert(message);
        let attachments = cache.attachments.upsert_bulk(attachments);
        let users = cache.users.upsert(author);
        first_error(first_error(messages, attachments), users)
    }
}

impl<B: Backend> CacheUpdate<B> for MessageDelete {
    /// The message is removed.
    open spec fn processed(self, before: Cache<B>, after: CacheView) -> bool {
        after == (CacheView { messages: before@.messages.remove(self.id), ..before@ })
    }

    fn process(self, cache: &mut Cache<B>) -> (done: Result<(), B::Error>) {
        proof {
            B::lemma_repositories();
        }
        cache.messages.remove(self.id)
    }
}

impl<B: Backend> CacheUpdate<B> for MessageDeleteBulk {
    /// Each of the messages is removed, and so is every attachment of each
    /// of them.
    open spec fn processed(self, before: Cache<B>, after: CacheView) -> bool {
        after == (CacheView {
            attachments: before@.attachments.remove_keys(attachments_of(before@.messages, self.ids@)),
            messages: before@.messages.remove_keys(self.ids@.to_set()),
            ..before@
        })
    }

    /// The attachments of a message are removed before the message itself.
    fn process(self, cache: &mut Cache<B>) -> (done: Result<(), B::Error>) {
        proof {
            B::lemma_repositories();
            assert(self.ids@.take(0).to_set() =~= Set::<MessageId>::empty());
            assert(attachments_of(cache@.messages, self.ids@.take(0)) =~= Set::<AttachmentId>::empty());
            assert(cache@.messages.remove_keys(Set::<MessageId>::empty()) =~= cache@.messages);
            assert(cache@.attachments.remove_keys(Set::<AttachmentId>::empty()) =~= cache@.attachments);
        }
        let ghost before = cache@;
        let mut done: Result<(), B::Error> = Ok(());
        let mut i: usize = 0;
        while i < self.ids.len()
            invariant
                i <= self.ids.len(),
                cache.wf(),
                cache.policy() == old(cache).policy(),
                before == old(cache)@,
                B::reliable() ==> done is Ok,
                <B::AttachmentRepository as Repository<AttachmentEntity, B::Error>>::reliable() <== B::reliable(),
                <B::MessageRepository as Repository<MessageEntity, B::Error>>::reliable() <== B::reliable(),
                done is Ok ==> cache@ == (CacheView {
                    attachments: before.attachments.remove_keys(
                        attachments_of(before.messages, self.ids@.take(i as int)),
                    ),
                    messages: before.messages.remove_keys(self.ids@.take(i as int).to_set()),
                    ..before
                }),
            decreases self.ids.len() - i,
        {
            let id = self.ids[i];
            let ghost taken = self.ids@.take(i as int);
            let ghost next = self.ids@.take(i + 1);
            proof {
                assert(next =~= taken.push(id));
                lemma_push_to_set(taken, id);
            }
            match cache.messages.get(id) {
                Ok(Some(message)) => {
                    let ghost owned = message.attachments@.to_set();
                    let attachments = cache.attachments.remove_bulk(message.attachments);
                    let messages = cache.messages.remove(id);
                    proof {
                        if done is Ok && attachments is Ok && messages is Ok {
                            assert(message == before.messages[id]);
                            assert(attachments_of(before.messages, next) =~= attachments_of(
                                before.messages,
                                taken,
                            ).union(owned)) by {
                                assert forall|a: AttachmentId|
                                    attachments_of(before.messages, next).contains(a) implies attachments_of(
                                    before.messages,
                                    taken,
                                ).union(owned).contains(a) by {
                                    let j = choose|j: int|
                                        0 <= j < next.len() && before.messages.contains_key(#[trigger] next[j])
                                            && before.messages[next[j]].attachments@.contains(a);
                                    if j < i {
                                        assert(taken[j] == next[j]);
                                    }
                                }
                                assert forall|a: AttachmentId|
                                    attachments_of(before.messages, taken).union(owned).contains(
                                        a,
                                    ) implies attachments_of(before.messages, next).contains(a) by {
                                    if owned.contains(a) {
                                        assert(next[i as int] == id);
                                    } else {
                                        let j = choose|j: int|
                                            0 <= j < taken.len() && before.messages.contains_key(
                                                #[trigger] taken[j],
                                            ) && before.messages[taken[j]].attachments@.contains(a);
                                        assert(next[j] == taken[j]);
                                    }
                                }
                            }
                            assert(cache@.attachments =~= before.attachments.remove_keys(
                                attachments_of(before.messages, next),
                            ));
                            assert(cache@.messages =~= before.messages.remove_keys(next.to_set()));
                        }
                    }
                    done = first_error(done, first_error(attachments, messages));
                },
                Ok(None) => {
                    proof {
                        if done is Ok {
                            assert(attachments_of(before.messages, next) =~= attachments_of(
                                before.messages,
                                taken,
                            )) by {
                                assert forall|a: AttachmentId|
                                    attachments_of(before.messages, next).contains(a) implies attachments_of(
                                    before.messages,
                                    taken,
                                ).contains(a) by {
                                    let j = choose|j: int|
                                        0 <= j < next.len() && before.messages.contains_key(#[trigger] next[j])
                                            && before.messages[next[j]].attachments@.contains(a);
                                    if j < i {
                                        assert(taken[j] == next[j]);
                                    } else {
                                        assert(next[j] == id);
                                        assert(taken.to_set().contains(id));
                                        let k = choose|k: int| 0 <= k < taken.len() && taken[k] == id;
                                        assert(before.messages.contains_key(taken[k]));
                                    }
                                }
                                assert forall|a: AttachmentId|
                                    attachments_of(before.messages, taken).contains(a) implies attachments_of(
                                    before.messages,
                                    next,
                                ).contains(a) by {
                                    let j = choose|j: int|
                                        0 <= j < taken.len() && before.messages.contains_key(
                                            #[trigger] taken[j],
                                        ) && before.messages[taken[j]].attachments@.contains(a);
                                    assert(next[j] == taken[j]);
                                }
                            }
                            assert(cache@.messages =~= before.messages.remove_keys(next.to_set()));
                        }
                    }
                },
                Err(why) => {
                    done = first_error(done, Err(why));
                },
            }
            i += 1;
        }
        proof {
            assert(self.ids@.take(self.ids.len() as int) =~= self.ids@);
        }
        done
    }
}

impl<B: Backend> CacheUpdate<B> for MessageUpdate {
    /// The fields that the update carries are laid over the stored message.
    /// Where no message is stored, nothing changes. An update that moves the
    /// message to another channel counts as a new message there, for which
    /// the repository of the messages may evict one.
    open spec fn processed(self, before: Cache<B>, after: CacheView) -> bool {
        match before@.messages.get(self.id) {
            Some(stored) => exists|entity: MessageEntity| #[trigger]
                entity.is_update_of(stored, self) && after == (CacheView {
                    messages: upserted(
                        before@.messages,
                        before.messages.accepts(),
                        before.messages.evicted_by(entity),
                        entity,
                    ),
                    ..before@
                }),
            None => after == before@,
        }
    }

    fn process(self, cache: &mut Cache<B>) -> (done: Result<(), B::Error>) {
        proof {
            B::lemma_repositories();
        }
        match cache.messages.get(self.id) {
            Ok(Some(stored)) => {
                let entity = stored.update(self);
                cache.messages.upsert(entity)
            },
            Ok(None) => Ok(()),
            Err(why) => Err(why),
        }
    }
}

impl<B: Backend> CacheUpdate<B> for PresenceUpdate {
    /// The presence is upserted.
    open spec fn processed(self, before: Cache<B>, after: CacheView) -> bool {
        exists|entity: PresenceEntity| #[trigger]
            entity.is_from_update(self) && after == (CacheView {
                presences: upserted(before@.presences, before.presences.accepts(), Set::empty(), entity),
                ..before@
            })
    }

    fn process(self, cache: &mut Cache<B>) -> (done: Result<(), B::Error>) {
        let entity = PresenceEntity::from_update(self);
        proof {
            B::lemma_repositories();
            cache.presences.lemma_keeps_all(entity);
        }
        cache.presences.upsert(entity)
    }
}

impl<B: Backend> CacheUpdate<B> for Ready {
    /// The current user is upserted.
    open spec fn processed(self, before: Cache<B>, after: CacheView) -> bool {
        after == (CacheView {
            current_user: replaced(
                before@.current_user,
                before.current_user.accepts(),
                CurrentUserEntity::spec_from(self.user),
            ),
            ..before@
        })
    }

    fn process(self, cache: &mut Cache<B>) -> (done: Result<(), B::Error>) {
        proof {
            B::lemma_repositories();
        }
        cache.current_user.upsert(CurrentUserEntity::from(self.user))
    }
}

impl<B: Backend> CacheUpdate<B> for RoleCreate {
    /// The role is upserted.
    open spec fn processed(self, before: Cache<B>, after: CacheView) -> bool {
        after == (CacheView {
            roles: upserted(
                before@.roles,
                before.roles.accepts(),
                Set::empty(),
                RoleEntity::spec_from((self.role, self.guild_id)),
            ),
            ..before@
        })
    }

    fn process(self, cache: &mut Cache<B>) -> (done: Result<(), B::Error>) {
        let role = RoleEntity::from((self.role, self.guild_id));
        proof {
            B::lemma_repositories();
            cache.roles.lemma_keeps_all(role);
        }
        cache.roles.upsert(role)
    }
}

impl<B: Backend> CacheUpdate<B> for RoleDelete {
    /// The role is removed.
    open spec fn processed(self, before: Cache<B>, after: CacheView) -> bool {
        after == (CacheView { roles: before@.roles.remove(self.role_id), ..before@ })
    }

    fn process(self, cache: &mut Cache<B>) -> (done: Result<(), B::Error>) {
        proof {
            B::lemma_repositories();
        }
        cache.roles.remove(self.role_id)
    }
}

impl<B: Backend> CacheUpdate<B> for RoleUpdate {
    /// The role is upserted.
    open spec fn processed(self, before: Cache<B>, after: CacheView) -> bool {
        after == (CacheView {
            roles: upserted(
                before@.roles,
                before.roles.accepts(),
                Set::empty(),
                RoleEntity::spec_from((self.role, self.guild_id)),
            ),
            ..before@
        })
    }

    fn process(self, cache: &mut Cache<B>) -> (done: Result<(), B::Error>) {
        let role = RoleEntity::from((self.role, self.guild_id));
        proof {
            B::lemma_repositories();
            cache.roles.lemma_keeps_all(role);
        }
        cache.roles.upsert(role)
    }
}

impl<B: Backend> CacheUpdate<B> for UserUpdate {
    /// The current user is upserted.
    open spec fn processed(self, before: Cache<B>, after: CacheView) -> bool {
        after == (CacheView {
            current_user: replaced(
                before@.current_user,
                before.current_user.accepts(),
                CurrentUserEntity::spec_from(self.0),
            ),
            ..before@
        })
    }

    fn process(self, cache: &mut Cache<B>) -> (done: Result<(), B::Error>) {
        proof {
            B::lemma_repositories();
        }
        cache.current_user.upsert(CurrentUserEntity::from(self.0))
    }
}

impl<B: Backend> CacheUpdate<B> for VoiceStateUpdate {
    /// The voice state is upserted under its guild. A voice state outside
    /// any guild changes nothing.
    open spec fn processed(self, before: Cache<B>, after: CacheView) -> bool {
        match self.0.guild_id {
            Some(guild_id) => after == (CacheView {
                voice_states: upserted(
                    before@.voice_states,
                    before.voice_states.accepts(),
                    Set::empty(),
                    VoiceStateEntity::spec_from((self.0, guild_id)),
                ),
                ..before@
            }),
            None => after == before@,
        }
    }

    fn process(self, cache: &mut Cache<B>) -> (done: Result<(), B::Error>) {
        proof {
            B::lemma_repositories();
        }
        match self.0.guild_id {
            Some(guild_id) => {
                let entity = VoiceStateEntity::from((self.0, guild_id));
                proof {
                    cache.voice_states.lemma_keeps_all(entity);
                }
                cache.voice_states.upsert(entity)
            },
            None => Ok(()),
        }
    }
}

impl<B: Backend> CacheUpdate<B> for Event {
    /// An event with a payload is processed as its payload is. Any other
    /// event carries nothing to cache and changes nothing.
    open spec fn processed(self, before: Cache<B>, after: CacheView) -> bool {
        match self {
            Event::ChannelCreate(event) => event.processed(before, after),
            Event::ChannelDelete(event) => event.processed(before, after),
            Event::ChannelPinsUpdate(event) => event.processed(before, after),
            Event::ChannelUpdate(event) => event.processed(before, after),
            Event::GuildCreate(event) => event.processed(before, after),
            Event::GuildDelete(event) => event.processed(before, after),
            Event::GuildEmojisUpdate(event) => event.processed(before, after),
            Event::GuildUpdate(event) => event.processed(before, after),
            Event::MemberAdd(event) => event.processed(before, after),
            Event::MemberRemove(event) => event.processed(before, after),
            Event::MemberUpdate(event) => event.processed(before, after),
            Event::MemberChunk(event) => event.processed(before, after),
            Event::MessageCreate(event) => event.processed(before, after),
            Event::MessageDelete(event) => event.processed(before, after),
            Event::MessageDeleteBulk(event) => event.processed(before, after),
            Event::MessageUpdate(event) => event.processed(before, after),
            Event::PresenceUpdate(event) => event.processed(before, after),
            Event::Ready(event) => event.processed(before, after),
            Event::RoleCreate(event) => event.processed(before, after),
            Event::RoleDelete(event) => event.processed(before, after),
            Event::RoleUpdate(event) => event.processed(before, after),
            Event::UserUpdate(event) => event.processed(before, after),
            Event::VoiceStateUpdate(event) => event.processed(before, after),
            _ => after == before@,
        }
    }

    fn process(self, cache: &mut Cache<B>) -> (done: Result<(), B::Error>) {
        match self {
            Event::ChannelCreate(event) => event.process(cache),
            Event::ChannelDelete(event) => event.process(cache),
            Event::ChannelPinsUpdate(event) => event.process(cache),
            Event::ChannelUpdate(event) => event.process(cache),
            Event::GuildCreate(event) => event.process(cache),
            Event::GuildDelete(event) => event.process(cache),
            Event::GuildEmojisUpdate(event) => event.process(cache),
            Event::GuildUpdate(event) => event.process(cache),
            Event::MemberAdd(event) => event.process(cache),
            Event::MemberRemove(event) => event.process(cache),
            Event::MemberUpdate(event) => event.process(cache),
            Event::MemberChunk(event) => event.process(cache),
            Event::MessageCreate(event) => event.process(cache),
            Event::MessageDelete(event) => event.process(cache),
            Event::MessageDeleteBulk(event) => event.process(cache),
            Event::MessageUpdate(event) => event.process(cache),
            Event::PresenceUpdate(event) => event.process(cache),
            Event::Ready(event) => event.process(cache),
            Event::RoleCreate(event) => event.process(cache),
            Event::RoleDelete(event) => event.process(cache),
            Event::RoleUpdate(event) => event.process(cache),
            Event::UserUpdate(event) => event.process(cache),
            Event::VoiceStateUpdate(event) => event.process(cache),
            // Everything else carries nothing to cache: bans, invites,
            // reactions, typing, and what the gateway and the shard say of
            // themselves.
            _ => Ok(()),
        }
    }
}

} // verus!
