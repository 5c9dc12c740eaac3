//! The repository of messages, which bounds how many messages of a channel
//! it holds.

use vstd::prelude::*;
use crate::config::{lemma_bits, Config, EntityType};
use crate::entity::channel::MessageEntity;
use crate::id::{ChannelId, GuildId, MessageId};
use crate::inmemory::InMemoryBackendError;
use crate::inmemory::record::EntityExt;
use crate::inmemory::store::Store;
use crate::inmemory::table::key_lt;
use crate::repository::{upserted, Repository};

verus! {

/// The ids of the messages of a channel among the entries.
pub open spec fn in_channel(entries: Map<MessageId, MessageEntity>, channel_id: ChannelId) -> Set<MessageId> {
    Set::new(|id: MessageId| entries.contains_key(id) && entries[id].channel_id == channel_id)
}

/// Whether `id` is among the ids and none of them is lower. Ids grow with
/// time: the lowest id is that of the oldest message.
pub open spec fn is_oldest(ids: Set<MessageId>, id: MessageId) -> bool {
    ids.contains(id) && forall|other: MessageId| ids.contains(other) ==> id.0 <= other.0
}

/// The lowest of ids of which there is one at least.
pub open spec fn oldest(ids: Set<MessageId>) -> MessageId {
    choose|id: MessageId| is_oldest(ids, id)
}

/// Ids have one lowest id at most.
pub proof fn lemma_oldest(ids: Set<MessageId>, id: MessageId)
    requires
        is_oldest(ids, id),
    ensures
        oldest(ids) == id,
{
    let other = oldest(ids);
    assert(is_oldest(ids, other));
    assert(other.0 == id.0);
}

/// Whether the upsert of `entity` leaves the messages of every channel as
/// many as they were: the message is stored already, in the same channel.
pub open spec fn is_edit(entries: Map<MessageId, MessageEntity>, entity: MessageEntity) -> bool {
    entries.contains_key(entity.id) && entries[entity.id].channel_id == entity.channel_id
}

/// The ids that leave once `entity`, which is new to its channel, has been
/// put into the entries: the lowest of the ids of the channel if they have
/// reached `size`, and none otherwise.
pub open spec fn evictions(entries: Map<MessageId, MessageEntity>, size: usize, entity: MessageEntity) -> Set<
    MessageId,
> {
    let after = in_channel(entries.insert(entity.id, entity), entity.channel_id);
    if after.len() >= size {
        set![oldest(after)]
    } else {
        Set::empty()
    }
}

/// The ids that leave once `entity` has been put into the entries, under a
/// bound of `size`. An edit of a stored message evicts nothing, and so does
/// any upsert where the size is 0. A message that is new to its channel
/// evicts the oldest message of the channel if the messages of the channel
/// have reached the size with it.
pub open spec fn evicted_from(entries: Map<MessageId, MessageEntity>, size: usize, entity: MessageEntity) -> Set<
    MessageId,
> {
    if size == 0 || is_edit(entries, entity) {
        Set::empty()
    } else {
        evictions(entries, size, entity)
    }
}

/// What the upsert of each of the messages in turn makes of the entries,
/// under a bound of `size`.
pub open spec fn upsert_messages(
    entries: Map<MessageId, MessageEntity>,
    accepts: bool,
    size: usize,
    entities: Seq<MessageEntity>,
) -> Map<MessageId, MessageEntity>
    decreases entities.len(),
{
    if entities.len() == 0 {
        entries
    } else {
        let so_far = upsert_messages(entries, accepts, size, entities.drop_last());
        upserted(so_far, accepts, evicted_from(so_far, size, entities.last()), entities.last())
    }
}

/// Whether the messages of every channel among the entries are fewer than
/// `size`. A size of 0 bounds nothing.
pub open spec fn is_bounded(entries: Map<MessageId, MessageEntity>, size: usize) -> bool {
    size > 0 ==> forall|channel_id: ChannelId|
        (#[trigger] in_channel(entries, channel_id)).finite() && in_channel(entries, channel_id).len() < size
}

/// To take a message out keeps the entries bounded.
pub proof fn lemma_bounded_remove(entries: Map<MessageId, MessageEntity>, size: usize, id: MessageId)
    requires
        is_bounded(entries, size),
    ensures
        is_bounded(entries.remove(id), size),
{
    if size > 0 {
        assert forall|channel_id: ChannelId|
            (#[trigger] in_channel(entries.remove(id), channel_id)).finite() && in_channel(
                entries.remove(id),
                channel_id,
            ).len() < size by {
            assert(in_channel(entries, channel_id).finite());
            assert(in_channel(entries.remove(id), channel_id) =~= in_channel(entries, channel_id).remove(id));
        }
    }
}

/// To put a message in leaves the messages of every other channel bounded,
/// and the messages of its own channel no more than `size`.
pub proof fn lemma_bounded_insert(entries: Map<MessageId, MessageEntity>, size: usize, entity: MessageEntity)
    requires
        is_bounded(entries, size),
        size > 0,
    ensures
        forall|channel_id: ChannelId|
            (#[trigger] in_channel(entries.insert(entity.id, entity), channel_id)).finite(),
        forall|channel_id: ChannelId|
            channel_id != entity.channel_id ==> (#[trigger] in_channel(
                entries.insert(entity.id, entity),
                channel_id,
            )).len() < size,
        in_channel(entries.insert(entity.id, entity), entity.channel_id) == in_channel(
            entries,
            entity.channel_id,
        ).insert(entity.id),
        in_channel(entries.insert(entity.id, entity), entity.channel_id).len() <= size,
{
    let more = entries.insert(entity.id, entity);
    assert(in_channel(entries, entity.channel_id).finite());
    assert(in_channel(more, entity.channel_id) =~= in_channel(entries, entity.channel_id).insert(entity.id));
    assert forall|channel_id: ChannelId|
        (#[trigger] in_channel(more, channel_id)).finite() && (channel_id != entity.channel_id ==> in_channel(
            more,
            channel_id,
        ).len() < size) by {
        assert(in_channel(entries, channel_id).finite());
        if channel_id != entity.channel_id {
            assert(in_channel(more, channel_id) =~= in_channel(entries, channel_id).remove(entity.id));
        }
    }
}

/// To upsert a message a second time changes nothing, whether the message
/// stayed the first time or left at once.
pub proof fn lemma_upsert_message_twice(
    entries: Map<MessageId, MessageEntity>,
    accepts: bool,
    size: usize,
    entity: MessageEntity,
)
    ensures
        ({
            let once = upserted(entries, accepts, evicted_from(entries, size, entity), entity);
            upserted(once, accepts, evicted_from(once, size, entity), entity) == once
        }),
{
    let put = entries.insert(entity.id, entity);
    let once = upserted(entries, accepts, evicted_from(entries, size, entity), entity);
    let twice = upserted(once, accepts, evicted_from(once, size, entity), entity);
    if accepts {
        if once.contains_key(entity.id) {
            // the message stayed: the second upsert is an edit
            assert(once[entity.id] == entity);
            assert(is_edit(once, entity));
            assert(once.insert(entity.id, entity).remove_keys(Set::<MessageId>::empty()) =~= once);
        } else {
            // the message left at once: it was the oldest of its channel,
            // and it is so again
            assert(evicted_from(entries, size, entity).contains(entity.id));
            assert(evicted_from(entries, size, entity) == set![entity.id]);
            assert(once =~= put.remove(entity.id));
            assert(once.insert(entity.id, entity) =~= put);
            assert(!is_edit(once, entity));
            assert(evicted_from(once, size, entity) == evicted_from(entries, size, entity));
            assert(twice =~= once);
        }
    }
}

/// Repository to retrieve and work with messages and their related entities.
///
/// The repository holds fewer messages of a channel than the configured
/// size. When a message that is new to its channel is put in and the
/// messages of the channel reach the size, the oldest message of the channel
/// leaves: the one with the lowest id, which may be the message that was
/// just put in. A size of 0 switches the bound off.
pub struct InMemoryMessageRepository {
    store: Store<MessageEntity>,
    enabled: bool,
    message_cache_size: usize,
}

impl InMemoryMessageRepository {
    /// The number of messages of a channel at which the oldest message of
    /// the channel leaves; 0 if the messages are not bounded.
    pub closed spec fn message_cache_size(&self) -> usize {
        self.message_cache_size
    }

    /// Make the repository of messages under a configuration: it holds
    /// nothing.
    pub fn new(config: &Config) -> (repo: Self)
        ensures
            repo.wf(),
            repo.entries() == Map::<MessageId, MessageEntity>::empty(),
            repo.accepts() == config.spec_entity_types().spec_contains(
                EntityType::spec_of(MessageEntity::spec_type_bits()),
            ),
            repo.message_cache_size() == config.spec_message_cache_size(),
    {
        let flag = MessageEntity::entity_type();
        proof {
            lemma_bits(flag);
        }
        let repo = InMemoryMessageRepository {
            store: Store::new(),
            enabled: config.entity_types().contains(flag),
            message_cache_size: config.message_cache_size(),
        };
        proof {
            assert forall|channel_id: ChannelId|
                (#[trigger] in_channel(repo.store.entries(), channel_id)).finite() && in_channel(
                    repo.store.entries(),
                    channel_id,
                ).len() == 0 by {
                assert(in_channel(repo.store.entries(), channel_id) =~= Set::<MessageId>::empty());
            }
        }
        repo
    }

    /// The messages of a channel never reach the configured size.
    pub proof fn lemma_retention(&self, channel_id: ChannelId)
        requires
            self.wf(),
            self.message_cache_size() > 0,
        ensures
            in_channel(self.entries(), channel_id).finite(),
            in_channel(self.entries(), channel_id).len() < self.message_cache_size(),
    {
    }

    /// A repository that is switched off holds nothing.
    pub proof fn lemma_gated(&self)
        requires
            self.wf(),
        ensures
            !self.accepts() ==> self.entries() == Map::<MessageId, MessageEntity>::empty(),
    {
    }

    /// A repository that is switched off holds nothing under any id after
    /// an upsert: whatever is upserted, nothing is found.
    pub proof fn lemma_gated_upsert(before: Self, entity: MessageEntity, after: Self, entity_id: MessageId)
        requires
            before.wf(),
            !before.accepts(),
            after.entries() == upserted(before.entries(), before.accepts(), before.evicted_by(entity), entity),
        ensures
            after.entries().get(entity_id) is None,
    {
    }

    /// Take the oldest message of a channel out if the messages of the
    /// channel have reached the configured size.
    ///
    /// This is called when a message that is new to the channel has been put
    /// in. The oldest message is the one with the lowest ID, not the one
    /// that was put in first: a message older than all the others of its
    /// channel is put in and removed at once.
    fn evict_oldest(
        &mut self,
        channel_id: ChannelId,
        Ghost(before): Ghost<Map<MessageId, MessageEntity>>,
        entity: Ghost<MessageEntity>,
    )
        requires
            old(self).store.wf(),
            entity@.channel_id == channel_id,
            old(self).message_cache_size > 0,
            old(self).enabled,
            is_bounded(before, old(self).message_cache_size),
            old(self).store.entries() == before.insert(entity@.id, entity@),
            !(before.contains_key(entity@.id) && before[entity@.id].channel_id == entity@.channel_id),
        ensures
            final(self).wf(),
            final(self).enabled == old(self).enabled,
            final(self).message_cache_size == old(self).message_cache_size,
            final(self).store.entries() == old(self).store.entries().remove_keys(
                evictions(before, old(self).message_cache_size, entity@),
            ),
    {
        let ids = self.store.ids_under(channel_id.0);
        let ghost put = self.store.entries();
        proof {
            lemma_bounded_insert(before, self.message_cache_size, entity@);
            assert(ids@.no_duplicates()) by {
                assert forall|i: int, j: int| 0 <= i < ids@.len() && 0 <= j < ids@.len() && i != j implies ids@[i]
                    != ids@[j] by {
                    if i < j {
                        assert(key_lt(MessageEntity::spec_key(ids@[i]), MessageEntity::spec_key(ids@[j])));
                    } else {
                        assert(key_lt(MessageEntity::spec_key(ids@[j]), MessageEntity::spec_key(ids@[i])));
                    }
                }
            }
            ids@.unique_seq_to_set();
            assert(ids@.to_set() =~= in_channel(put, channel_id));
        }
        if ids.len() < self.message_cache_size {
            proof {
                assert(put.remove_keys(Set::<MessageId>::empty()) =~= put);
                assert forall|other: ChannelId|
                    (#[trigger] in_channel(put, other)).finite() && in_channel(put, other).len()
                        < self.message_cache_size by {
                    assert(other == channel_id || other != channel_id);
                }
            }
            return ;
        }
        let oldest = ids[0];
        proof {
            assert(ids@.contains(oldest));
            assert forall|other: MessageId| in_channel(put, channel_id).contains(other) implies oldest.0
                <= other.0 by {
                assert(ids@.contains(other));
                let j = choose|j: int| 0 <= j < ids@.len() && ids@[j] == other;
                if j > 0 {
                    assert(key_lt(MessageEntity::spec_key(ids@[0]), MessageEntity::spec_key(ids@[j])));
                }
            }
            lemma_oldest(in_channel(put, channel_id), oldest);
        }
        let _ = self.store.remove(&oldest);
        proof {
            assert(put.remove(oldest) =~= put.remove_keys(set![oldest]));
            assert forall|other: ChannelId|
                (#[trigger] in_channel(put.remove(oldest), other)).finite() && in_channel(
                    put.remove(oldest),
                    other,
                ).len() < self.message_cache_size by {
                assert(in_channel(put, other).finite());
                assert(in_channel(put.remove(oldest), other) =~= in_channel(put, other).remove(oldest));
            }
        }
    }
}

impl Repository<MessageEntity, InMemoryBackendError> for InMemoryMessageRepository {
    /// The table and its index are in step, a repository that is switched
    /// off holds nothing, and the messages of every channel are fewer than
    /// the configured size.
    closed spec fn wf(&self) -> bool {
        &&& self.store.wf()
        &&& !self.enabled ==> self.store.entries() == Map::<MessageId, MessageEntity>::empty()
        &&& is_bounded(self.store.entries(), self.message_cache_size)
    }

    closed spec fn entries(&self) -> Map<MessageId, MessageEntity> {
        self.store.entries()
    }

    closed spec fn accepts(&self) -> bool {
        self.enabled
    }

    open spec fn evicted_by(&self, entity: MessageEntity) -> Set<MessageId> {
        evicted_from(self.entries(), self.message_cache_size(), entity)
    }

    open spec fn reliable() -> bool {
        true
    }

    open spec fn keeps_all() -> bool {
        false
    }

    proof fn lemma_ids(&self, entity_id: MessageId) {
        if self.entries().contains_key(entity_id) {
            self.store.lemma_ids(entity_id);
        }
    }

    proof fn lemma_replacing(&self, entity: MessageEntity) {
    }

    proof fn lemma_keeps_all(&self, entity: MessageEntity) {
    }

    fn get(&self, entity_id: MessageId) -> (found: Result<Option<MessageEntity>, InMemoryBackendError>)
        ensures
            !self.accepts() ==> found == Ok::<Option<MessageEntity>, InMemoryBackendError>(None),
    {
        Ok(self.store.get(&entity_id))
    }

    fn list(&self) -> (found: Result<Vec<MessageEntity>, InMemoryBackendError>) {
        Ok(self.store.list())
    }

    /// Messages are not listed by guild: there are none under any guild.
    fn ids_in_guild(&self, guild_id: GuildId) -> (found: Result<Vec<MessageId>, InMemoryBackendError>) {
        Ok(Vec::new())
    }

    fn remove(&mut self, entity_id: MessageId) -> (done: Result<(), InMemoryBackendError>)
        ensures
            final(self).message_cache_size() == old(self).message_cache_size(),
    {
        let _ = self.store.remove(&entity_id);
        proof {
            lemma_bounded_remove(old(self).store.entries(), self.message_cache_size, entity_id);
            assert(Map::<MessageId, MessageEntity>::empty().remove(entity_id) =~= Map::<
                MessageId,
                MessageEntity,
            >::empty());
        }
        Ok(())
    }

    fn upsert(&mut self, entity: MessageEntity) -> (done: Result<(), InMemoryBackendError>)
        ensures
            final(self).message_cache_size() == old(self).message_cache_size(),
    {
        if !self.enabled {
            return Ok(());
        }
        let channel_id = entity.channel_id;
        let before = self.store.insert(entity);
        let edit = match before {
            Some(stored) => stored.channel_id.0 == channel_id.0,
            None => false,
        };
        let ghost put = self.store.entries();
        proof {
            assert(edit == is_edit(old(self).entries(), entity));
        }
        if !edit && self.message_cache_size > 0 {
            self.evict_oldest(channel_id, Ghost(old(self).store.entries()), Ghost(entity));
            assert(old(self).evicted_by(entity) == evictions(
                old(self).entries(),
                old(self).message_cache_size(),
                entity,
            ));
            assert(self.store.entries() == put.remove_keys(old(self).evicted_by(entity)));
        } else {
            assert(old(self).evicted_by(entity) == Set::<MessageId>::empty());
            proof {
                assert(put.remove_keys(Set::<MessageId>::empty()) =~= put);
                if self.message_cache_size > 0 {
                    assert forall|other: ChannelId|
                        (#[trigger] in_channel(put, other)).finite() && in_channel(put, other).len()
                            < self.message_cache_size by {
                        assert(in_channel(old(self).store.entries(), other).finite());
                        assert(in_channel(put, other) =~= in_channel(old(self).store.entries(), other));
                    }
                }
            }
        }
        Ok(())
    }

    fn upsert_bulk(&mut self, entities: Vec<MessageEntity>) -> (done: Result<(), InMemoryBackendError>)
        ensures
            final(self).message_cache_size() == old(self).message_cache_size(),
            final(self).entries() == upsert_messages(
                old(self).entries(),
                old(self).accepts(),
                old(self).message_cache_size(),
                entities@,
            ),
    {
        for entity in it: entities.into_iter()
            invariant
                self.wf(),
                it.seq() == entities@,
                self.accepts() == old(self).accepts(),
                self.message_cache_size() == old(self).message_cache_size(),
                self.entries() == upsert_messages(
                    old(self).entries(),
                    old(self).accepts(),
                    old(self).message_cache_size(),
                    entities@.take(it.index() as int),
                ),
        {
            let ghost n = it.index() as int;
            proof {
                assert(entities@.take(n + 1).drop_last() =~= entities@.take(n));
            }
            let _ = self.upsert(entity);
        }
        proof {
            assert(entities@.take(entities@.len() as int) =~= entities@);
        }
        Ok(())
    }
}

} // verus!
