//! The contract between the cache and a backend: one repository per entity
//! type, which gets, lists, removes and upserts the entities of that type.

pub mod noop;

pub use self::noop::NoopRepository;

use vstd::prelude::*;
use crate::entity::Entity;
use crate::id::GuildId;
use crate::lemmas::lemma_skip_one_less;

verus! {

/// Whether `list` holds each of the entities of `entries` once, and nothing
/// else. The order is left open.
pub open spec fn is_listing<E: Entity>(entries: Map<E::Id, E>, list: Seq<E>) -> bool {
    &&& forall|i: int|
        0 <= i < list.len() ==> entries.contains_key(#[trigger] list[i].spec_id())
            && entries[list[i].spec_id()] == list[i]
    &&& forall|id: E::Id| #[trigger]
        entries.contains_key(id) ==> exists|i: int| 0 <= i < list.len() && #[trigger] list[i].spec_id() == id
    &&& forall|i: int, j: int|
        0 <= i < j < list.len() ==> #[trigger] list[i].spec_id() != #[trigger] list[j].spec_id()
}

/// Whether `ids` holds the id of each entity of `entries` that is listed
/// under the guild once, and nothing else. The order is left open.
pub open spec fn is_guild_listing<E: Entity>(entries: Map<E::Id, E>, guild_id: GuildId, ids: Seq<E::Id>) -> bool {
    &&& forall|id: E::Id|
        ids.contains(id) <==> (#[trigger] entries.contains_key(id) && entries[id].spec_scope() == Some(guild_id))
    &&& ids.no_duplicates()
}

/// The entries after each of the entities has been put in, one after the
/// other: of two entities with one id the later one stays.
pub open spec fn upsert_all<E: Entity>(entries: Map<E::Id, E>, entities: Seq<E>) -> Map<E::Id, E>
    decreases entities.len(),
{
    if entities.len() == 0 {
        entries
    } else {
        upsert_all(entries, entities.drop_last()).insert(entities.last().spec_id(), entities.last())
    }
}

/// What a successful upsert of `entity` makes of the entries of a
/// repository: a repository that does not accept stays as it is; in any
/// other the entity is put under its id, then what the repository evicts to
/// stay within its bounds leaves, and nothing else changes.
pub open spec fn upserted<E: Entity>(
    entries: Map<E::Id, E>,
    accepts: bool,
    evicted: Set<E::Id>,
    entity: E,
) -> Map<E::Id, E> {
    if accepts {
        entries.insert(entity.spec_id(), entity).remove_keys(evicted)
    } else {
        entries
    }
}

/// The repository of the entities of one type in a backend.
///
/// What a repository holds is described by [`Repository::entries`]; each
/// operation says what it finds there or what it makes of it. An operation
/// of a backend may fail: what is said of its effect is said of the calls
/// that return `Ok`.
pub trait Repository<E: Entity, Error>: Sized {
    /// What holds of a repository between any two of its operations: the
    /// backend's own invariant. Whoever makes a repository establishes it,
    /// and every operation keeps it.
    spec fn wf(&self) -> bool;

    /// The entities that the repository holds, by id.
    spec fn entries(&self) -> Map<E::Id, E>;

    /// Whether the repository stores what is upserted. A repository that
    /// does not, stays as it is.
    spec fn accepts(&self) -> bool;

    /// The ids that leave the repository once `entity` has been put in, for
    /// the repositories that bound what they hold. The id of the entity
    /// itself may be among them.
    spec fn evicted_by(&self, entity: E) -> Set<E::Id>;

    /// Whether no operation of a repository of this type ever fails.
    spec fn reliable() -> bool;

    /// Whether a repository of this type holds whatever was upserted until
    /// it is removed.
    spec fn keeps_all() -> bool;

    /// An entity stands under its own id.
    proof fn lemma_ids(&self, entity_id: E::Id)
        requires
            self.wf(),
        ensures
            self.entries().contains_key(entity_id) ==> self.entries()[entity_id].spec_id() == entity_id,
    ;

    /// To upsert an entity that is stored as it is evicts nothing.
    proof fn lemma_replacing(&self, entity: E)
        requires
            self.wf(),
        ensures
            self.entries().get(entity.spec_id()) == Some(entity) ==> self.evicted_by(entity) == Set::<E::Id>::empty(),
    ;

    /// A repository that keeps all evicts nothing.
    proof fn lemma_keeps_all(&self, entity: E)
        requires
            self.wf(),
        ensures
            Self::keeps_all() ==> self.evicted_by(entity) == Set::<E::Id>::empty(),
    ;

    /// Get an entity by its ID in the cache.
    fn get(&self, entity_id: E::Id) -> (found: Result<Option<E>, Error>)
        requires
            self.wf(),
        ensures
            Self::reliable() ==> found is Ok,
            found matches Ok(entity) ==> entity == self.entries().get(entity_id),
    ;

    /// List the records of the entity, each once, in no particular order.
    fn list(&self) -> (found: Result<Vec<E>, Error>)
        requires
            self.wf(),
        ensures
            Self::reliable() ==> found is Ok,
            found matches Ok(list) ==> is_listing(self.entries(), list@),
    ;

    /// List the ids of the records that are listed under a guild, each once,
    /// in no particular order.
    fn ids_in_guild(&self, guild_id: GuildId) -> (found: Result<Vec<E::Id>, Error>)
        requires
            self.wf(),
        ensures
            Self::reliable() ==> found is Ok,
            found matches Ok(ids) ==> is_guild_listing(self.entries(), guild_id, ids@),
    ;

    /// Remove an entity by its ID from the cache.
    ///
    /// Removing an id that is not there is not an error.
    fn remove(&mut self, entity_id: E::Id) -> (done: Result<(), Error>)
        requires
            old(self).wf(),
        ensures
            final(self).wf(),
            final(self).accepts() == old(self).accepts(),
            Self::reliable() ==> done is Ok,
            done is Ok ==> final(self).entries() == old(self).entries().remove(entity_id),
    ;

    /// Upsert an entity into the cache: the entity takes the place of what
    /// was stored under its id, whole.
    fn upsert(&mut self, entity: E) -> (done: Result<(), Error>)
        requires
            old(self).wf(),
        ensures
            final(self).wf(),
            final(self).accepts() == old(self).accepts(),
            Self::reliable() ==> done is Ok,
            done is Ok ==> final(self).entries() == upserted(
                old(self).entries(),
                old(self).accepts(),
                old(self).evicted_by(entity),
                entity,
            ),
    ;

    /// Bulk remove multiple entities from the cache.
    ///
    /// Every id is removed, also after the removal of another one has
    /// failed; nothing is rolled back. The result is the first error met.
    fn remove_bulk(&mut self, entity_ids: Vec<E::Id>) -> (done: Result<(), Error>)
        requires
            old(self).wf(),
        ensures
            final(self).wf(),
            final(self).accepts() == old(self).accepts(),
            Self::reliable() ==> done is Ok,
            done is Ok ==> final(self).entries() == old(self).entries().remove_keys(entity_ids@.to_set()),
    {
        let ghost all = entity_ids@;
        let mut rest = entity_ids;
        let mut first: Result<(), Error> = Ok(());
        while rest.len() > 0
            invariant
                self.wf(),
                rest@.len() <= all.len(),
                rest@ == all.take(rest@.len() as int),
                self.accepts() == old(self).accepts(),
                Self::reliable() ==> first is Ok,
                first is Ok ==> self.entries() == old(self).entries().remove_keys(
                    all.skip(rest@.len() as int).to_set(),
                ),
            decreases rest@.len(),
        {
            let ghost before = self.entries();
            let ghost n = rest@.len() as int;
            match rest.pop() {
                Some(entity_id) => {
                    let step = self.remove(entity_id);
                    proof {
                        assert(rest@ =~= all.take(n - 1));
                        if first is Ok && step is Ok {
                            lemma_skip_one_less(all, n);
                            assert(before.remove(entity_id) =~= old(self).entries().remove_keys(
                                all.skip(n - 1).to_set(),
                            ));
                        }
                    }
                    if first.is_ok() {
                        first = step;
                    }
                },
                None => {},
            }
        }
        proof {
            assert(all.skip(0) =~= all);
        }
        first
    }

    /// Bulk upsert multiple entities in the cache, in their order.
    ///
    /// Every entity is upserted, also after the upsert of another one has
    /// failed; nothing is rolled back. The result is the first error met.
    ///
    /// What the repository holds afterwards is said here for the
    /// repositories that keep all. A repository that evicts says it itself,
    /// in the terms in which it says what it evicts.
    fn upsert_bulk(&mut self, entities: Vec<E>) -> (done: Result<(), Error>)
        requires
            old(self).wf(),
        ensures
            final(self).wf(),
            final(self).accepts() == old(self).accepts(),
            Self::reliable() ==> done is Ok,
            done is Ok && Self::keeps_all() && old(self).accepts() ==> final(self).entries() == upsert_all(
                old(self).entries(),
                entities@,
            ),
            done is Ok && !old(self).accepts() ==> final(self).entries() == old(self).entries(),
    {
        let mut first: Result<(), Error> = Ok(());
        for entity in it: entities.into_iter()
            invariant
                self.wf(),
                it.seq() == entities@,
                self.accepts() == old(self).accepts(),
                Self::reliable() ==> first is Ok,
                first is Ok && Self::keeps_all() && old(self).accepts() ==> self.entries() == upsert_all(
                    old(self).entries(),
                    entities@.take(it.index() as int),
                ),
                first is Ok && !old(self).accepts() ==> self.entries() == old(self).entries(),
        {
            let ghost n = it.index() as int;
            let ghost before = *self;
            let step = self.upsert(entity);
            proof {
                if Self::keeps_all() {
                    before.lemma_keeps_all(entity);
                    assert(before.entries().insert(entity.spec_id(), entity).remove_keys(Set::<E::Id>::empty())
                        =~= before.entries().insert(entity.spec_id(), entity));
                }
                assert(entities@.take(n + 1).drop_last() =~= entities@.take(n));
            }
            if first.is_ok() {
                first = step;
            }
        }
        proof {
            assert(entities@.take(entities@.len() as int) =~= entities@);
        }
        first
    }
}

/// The entries without those that are listed under the guild.
pub open spec fn without_guild<E: Entity>(entries: Map<E::Id, E>, guild_id: GuildId) -> Map<E::Id, E> {
    entries.remove_keys(
        Set::new(|id: E::Id| entries.contains_key(id) && entries[id].spec_scope() == Some(guild_id)),
    )
}

/// Remove every entity that is listed under the guild from the repository.
///
/// Where the ids of the guild cannot be listed, nothing is removed and the
/// error is the result.
pub fn remove_in_guild<E: Entity, Error, R: Repository<E, Error>>(
    repo: &mut R,
    guild_id: GuildId,
) -> (done: Result<(), Error>)
    requires
        old(repo).wf(),
    ensures
        final(repo).wf(),
        final(repo).accepts() == old(repo).accepts(),
        R::reliable() ==> done is Ok,
        done is Ok ==> final(repo).entries() == without_guild(old(repo).entries(), guild_id),
{
    match repo.ids_in_guild(guild_id) {
        Ok(ids) => {
            proof {
                assert(ids@.to_set() =~= Set::new(
                    |id: E::Id|
                        repo.entries().contains_key(id) && repo.entries()[id].spec_scope() == Some(guild_id),
                ));
            }
            repo.remove_bulk(ids)
        },
        Err(why) => Err(why),
    }
}

/// After a successful upsert into a repository that accepts, the entity
/// stands under its id as it was given, unless the repository has evicted it
/// at once to stay within its bounds; a repository that does not accept
/// stays as it was.
pub proof fn lemma_upsert_then_get<E: Entity, Error, R: Repository<E, Error>>(before: R, entity: E, after: R)
    requires
        after.entries() == upserted(before.entries(), before.accepts(), before.evicted_by(entity), entity),
    ensures
        before.accepts() && !before.evicted_by(entity).contains(entity.spec_id()) ==> after.entries().get(
            entity.spec_id(),
        ) == Some(entity),
        !before.accepts() ==> after.entries() == before.entries(),
{
}

/// After a successful upsert into a repository that accepts and keeps all,
/// the entity stands under its id as it was given.
pub proof fn lemma_upsert_then_get_kept<E: Entity, Error, R: Repository<E, Error>>(
    before: R,
    entity: E,
    after: R,
)
    requires
        before.wf(),
        R::keeps_all(),
        before.accepts(),
        after.entries() == upserted(before.entries(), before.accepts(), before.evicted_by(entity), entity),
    ensures
        after.entries().get(entity.spec_id()) == Some(entity),
{
    before.lemma_keeps_all(entity);
}

/// To upsert into a repository the entity that was upserted into it last,
/// and that it holds, changes nothing.
pub proof fn lemma_upsert_twice<E: Entity, Error, R: Repository<E, Error>>(
    before: R,
    entity: E,
    once: R,
    twice: R,
)
    requires
        once.wf(),
        once.accepts() == before.accepts(),
        once.entries() == upserted(before.entries(), before.accepts(), before.evicted_by(entity), entity),
        twice.entries() == upserted(once.entries(), once.accepts(), once.evicted_by(entity), entity),
        before.accepts() ==> once.entries().contains_key(entity.spec_id()),
    ensures
        twice.entries() == once.entries(),
{
    if once.accepts() {
        once.lemma_replacing(entity);
        assert(once.entries().insert(entity.spec_id(), entity).remove_keys(Set::<E::Id>::empty())
            =~= once.entries());
    }
}

/// To remove an id from a repository a second time changes nothing: to
/// remove an id that is not there is no error.
pub proof fn lemma_remove_twice<E: Entity>(entries: Map<E::Id, E>, entity_id: E::Id)
    ensures
        entries.remove(entity_id).remove(entity_id) == entries.remove(entity_id),
        !entries.remove(entity_id).contains_key(entity_id),
{
    assert(entries.remove(entity_id).remove(entity_id) =~= entries.remove(entity_id));
}

/// Nothing that is listed under a guild is left once the guild has been
/// taken out of the entries, and everything else is left as it was.
pub proof fn lemma_without_guild<E: Entity>(entries: Map<E::Id, E>, guild_id: GuildId, entity_id: E::Id)
    ensures
        without_guild(entries, guild_id).contains_key(entity_id) <==> (entries.contains_key(entity_id)
            && entries[entity_id].spec_scope() != Some(guild_id)),
        without_guild(entries, guild_id).contains_key(entity_id) ==> without_guild(entries, guild_id)[entity_id]
            == entries[entity_id],
{
}

/// The repository of an entity of which a backend holds at most one.
pub trait SingleEntityRepository<E: Entity, Error>: Sized {
    /// What holds of a repository between any two of its operations.
    spec fn wf(&self) -> bool;

    /// The entity that the repository holds, if it holds one.
    spec fn entity(&self) -> Option<E>;

    /// Whether the repository stores what is upserted.
    spec fn accepts(&self) -> bool;

    /// Whether no operation of a repository of this type ever fails.
    spec fn reliable() -> bool;

    /// Get the entity in the cache.
    fn get(&self) -> (found: Result<Option<E>, Error>)
        requires
            self.wf(),
        ensures
            Self::reliable() ==> found is Ok,
            found matches Ok(entity) ==> entity == self.entity(),
    ;

    /// Remove the entity from the cache.
    fn remove(&mut self) -> (done: Result<(), Error>)
        requires
            old(self).wf(),
        ensures
            final(self).wf(),
            final(self).accepts() == old(self).accepts(),
            Self::reliable() ==> done is Ok,
            done is Ok ==> final(self).entity() is None,
    ;

    /// Upsert the entity into the cache.
    fn upsert(&mut self, entity: E) -> (done: Result<(), Error>)
        requires
            old(self).wf(),
        ensures
            final(self).wf(),
            final(self).accepts() == old(self).accepts(),
            Self::reliable() ==> done is Ok,
            done is Ok && old(self).accepts() ==> final(self).entity() == Some(entity),
            done is Ok && !old(self).accepts() ==> final(self).entity() == old(self).entity(),
    ;
}

} // verus!
