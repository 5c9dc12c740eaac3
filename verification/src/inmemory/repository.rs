//! Repository implementations for working with the in memory cache.

use vstd::prelude::*;
use crate::config::{lemma_bits, Config, EntityType};
use crate::id::GuildId;
use crate::inmemory::InMemoryBackendError;
use crate::inmemory::record::ByGuild;
use crate::inmemory::store::Store;
use crate::inmemory::table::key_lt;
use crate::repository::{upserted, Repository};

verus! {

/// The repository of the entities of one type that are kept by id.
///
/// A repository whose entity type is switched off in the configuration
/// stores nothing: it is empty from the start and stays empty.
pub struct InMemoryRepository<E: ByGuild> {
    store: Store<E>,
    enabled: bool,
}

impl<E: ByGuild> InMemoryRepository<E> {
    /// Make the repository of an entity type under a configuration: it holds
    /// nothing, and it stores what is upserted if the configuration has the
    /// flag of the entity type.
    pub fn new(config: &Config) -> (repo: Self)
        ensures
            repo.wf(),
            repo.entries() == Map::<E::Id, E>::empty(),
            repo.accepts() == config.spec_entity_types().spec_contains(
                EntityType::spec_of(E::spec_type_bits()),
            ),
    {
        let flag = E::entity_type();
        proof {
            lemma_bits(flag);
        }
        InMemoryRepository { store: Store::new(), enabled: config.entity_types().contains(flag) }
    }

    /// A repository that is switched off holds nothing.
    pub proof fn lemma_gated(&self)
        requires
            self.wf(),
        ensures
            !self.accepts() ==> self.entries() == Map::<E::Id, E>::empty(),
    {
    }

    /// A repository that is switched off holds nothing under any id after
    /// an upsert: whatever is upserted, nothing is found.
    pub proof fn lemma_gated_upsert(before: Self, entity: E, after: Self, entity_id: E::Id)
        requires
            before.wf(),
            !before.accepts(),
            after.entries() == upserted(before.entries(), before.accepts(), before.evicted_by(entity), entity),
        ensures
            after.entries().get(entity_id) is None,
    {
    }

}

impl<E: ByGuild> Repository<E, InMemoryBackendError> for InMemoryRepository<E> {
    /// The table and the index by guild are in step, and a repository that
    /// is switched off holds nothing.
    closed spec fn wf(&self) -> bool {
        &&& self.store.wf()
        &&& !self.enabled ==> self.store.entries() == Map::<E::Id, E>::empty()
    }

    closed spec fn entries(&self) -> Map<E::Id, E> {
        self.store.entries()
    }

    closed spec fn accepts(&self) -> bool {
        self.enabled
    }

    open spec fn evicted_by(&self, entity: E) -> Set<E::Id> {
        Set::empty()
    }

    open spec fn reliable() -> bool {
        true
    }

    open spec fn keeps_all() -> bool {
        true
    }

    proof fn lemma_ids(&self, entity_id: E::Id) {
        if self.entries().contains_key(entity_id) {
            self.store.lemma_ids(entity_id);
        }
    }

    proof fn lemma_replacing(&self, entity: E) {
        assert(self.evicted_by(entity) =~= Set::<E::Id>::empty());
    }

    proof fn lemma_keeps_all(&self, entity: E) {
        assert(self.evicted_by(entity) =~= Set::<E::Id>::empty());
    }

    fn get(&self, entity_id: E::Id) -> (found: Result<Option<E>, InMemoryBackendError>)
        ensures
            !self.accepts() ==> found == Ok::<Option<E>, InMemoryBackendError>(None),
    {
        Ok(self.store.get(&entity_id))
    }

    fn list(&self) -> (found: Result<Vec<E>, InMemoryBackendError>) {
        Ok(self.store.list())
    }

    fn ids_in_guild(&self, guild_id: GuildId) -> (found: Result<Vec<E::Id>, InMemoryBackendError>) {
        let ids = self.store.ids_under(guild_id.0);
        proof {
            assert forall|id: E::Id|
                ids@.contains(id) <==> (#[trigger] self.entries().contains_key(id)
                    && self.entries()[id].spec_scope() == Some(guild_id)) by {
                if self.entries().contains_key(id) {
                    self.entries()[id].lemma_owner();
                }
            }
            assert forall|a: int, b: int| 0 <= a < ids@.len() && 0 <= b < ids@.len() && a != b implies ids@[a]
                != ids@[b] by {
                if a < b {
                    assert(key_lt(E::spec_key(ids@[a]), E::spec_key(ids@[b])));
                } else {
                    assert(key_lt(E::spec_key(ids@[b]), E::spec_key(ids@[a])));
                }
            }
        }
        Ok(ids)
    }

    fn remove(&mut self, entity_id: E::Id) -> (done: Result<(), InMemoryBackendError>) {
        let _ = self.store.remove(&entity_id);
        proof {
            assert(Map::<E::Id, E>::empty().remove(entity_id) =~= Map::<E::Id, E>::empty());
        }
        Ok(())
    }

    fn upsert(&mut self, entity: E) -> (done: Result<(), InMemoryBackendError>) {
        if !self.enabled {
            return Ok(());
        }
        let _ = self.store.insert(entity);
        proof {
            assert(old(self).entries().insert(entity.spec_id(), entity).remove_keys(
                old(self).evicted_by(entity),
            ) =~= old(self).entries().insert(entity.spec_id(), entity));
        }
        Ok(())
    }
}

} // verus!
