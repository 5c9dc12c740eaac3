//! The table of one entity type together with its index by guild, kept in
//! step: whatever is in the table under a guild is listed under that guild,
//! and nothing else is.

use vstd::prelude::*;
use crate::inmemory::record::{EntityExt, Record};
use crate::inmemory::table::{
    key_lt, key_sets, key_sets_insert, key_sets_keys, key_sets_new, key_sets_remove, table_entries,
    table_get, table_insert, table_new, table_records, table_remove, Key, KeySets, Table,
};
use crate::repository::is_listing;
use std::marker::PhantomData;

verus! {

/// The entities of one type, by id, with the ids listed by guild.
pub struct Store<E> {
    table: Table,
    index: KeySets,
    marker: PhantomData<E>,
}

impl<E: EntityExt> Store<E> {
    /// The records of the table, by key.
    pub closed spec fn records(&self) -> Map<Key, Record> {
        table_records(self.table)
    }

    /// The pairs of a guild and a key that the index holds.
    pub closed spec fn listed(&self) -> Set<(u64, Key)> {
        key_sets(self.index)
    }

    /// The entity under a key.
    pub open spec fn entity_at(&self, key: Key) -> E {
        E::spec_of_record(self.records()[key])->Some_0
    }

    /// The entities of the store, by id.
    pub open spec fn entries(&self) -> Map<E::Id, E> {
        Map::new(
            |id: E::Id| self.records().contains_key(E::spec_key(id)),
            |id: E::Id| self.entity_at(E::spec_key(id)),
        )
    }

    /// Each record is an entity of the type of the store and stands under
    /// the key of its id; the index lists a key under a guild exactly where
    /// the entity under the key is listed under that guild.
    pub open spec fn wf(&self) -> bool {
        &&& forall|key: Key| #[trigger]
            self.records().contains_key(key) ==> E::spec_of_record(self.records()[key]) is Some
                && E::spec_key(self.entity_at(key).spec_id()) == key
        &&& forall|owner: u64, key: Key| #[trigger]
            self.listed().contains((owner, key)) <==> (self.records().contains_key(key)
                && self.entity_at(key).spec_owner() == Some(owner))
    }

    /// In a well-formed store an entity stands under its own id.
    pub proof fn lemma_ids(&self, id: E::Id)
        requires
            self.wf(),
            self.entries().contains_key(id),
        ensures
            self.entries()[id].spec_id() == id,
    {
        E::lemma_key(id);
        E::lemma_key(self.entries()[id].spec_id());
    }

    /// Make a store that holds nothing.
    pub fn new() -> (store: Self)
        ensures
            store.wf(),
            store.entries() == Map::<E::Id, E>::empty(),
    {
        let store = Store { table: table_new(), index: key_sets_new(), marker: PhantomData };
        proof {
            assert(store.entries() =~= Map::<E::Id, E>::empty());
        }
        store
    }

    /// Return the entity under the id, if there is one.
    pub fn get(&self, id: &E::Id) -> (found: Option<E>)
        requires
            self.wf(),
        ensures
            found == self.entries().get(*id),
    {
        match table_get(&self.table, E::key(id)) {
            Some(record) => E::of_record(record),
            None => None,
        }
    }

    /// Take the key of an entity that has left the table, or is about to be
    /// replaced in it, out of the index.
    fn unlist(index: &mut KeySets, key: Key, before: Option<Record>) -> (entity: Option<E>)
        ensures
            entity == (match before {
                Some(record) => E::spec_of_record(record),
                None => None,
            }),
            key_sets(*final(index)) == (match before {
                Some(record) => match E::spec_of_record(record) {
                    Some(entity) => match entity.spec_owner() {
                        Some(owner) => key_sets(*old(index)).remove((owner, key)),
                        None => key_sets(*old(index)),
                    },
                    None => key_sets(*old(index)),
                },
                None => key_sets(*old(index)),
            }),
    {
        match before {
            Some(record) => match E::of_record(record) {
                Some(entity) => {
                    match entity.owner() {
                        Some(owner) => {
                            key_sets_remove(index, owner, key);
                        },
                        None => {},
                    }
                    Some(entity)
                },
                None => None,
            },
            None => None,
        }
    }

    /// Put the entity under its id, in place of what was there, which is
    /// returned, and list it under its owner.
    pub fn insert(&mut self, entity: E) -> (before: Option<E>)
        requires
            old(self).wf(),
        ensures
            final(self).wf(),
            final(self).entries() == old(self).entries().insert(entity.spec_id(), entity),
            before == old(self).entries().get(entity.spec_id()),
    {
        let id = entity.id();
        let key = E::key(&id);
        let owner = entity.owner();
        proof {
            E::lemma_key(id);
            E::lemma_record(entity);
        }
        let before = table_insert(&mut self.table, key, entity.into_record());
        let before = Self::unlist(&mut self.index, key, before);
        match owner {
            Some(owner) => {
                key_sets_insert(&mut self.index, owner, key);
            },
            None => {},
        }
        proof {
            assert forall|other: Key| #[trigger] self.records().contains_key(other) implies E::spec_of_record(
                self.records()[other],
            ) is Some && E::spec_key(self.entity_at(other).spec_id()) == other by {
                if other != key {
                    assert(old(self).records().contains_key(other));
                }
            }
            assert forall|owner: u64, other: Key| #[trigger]
                self.listed().contains((owner, other)) <==> (self.records().contains_key(other)
                    && self.entity_at(other).spec_owner() == Some(owner)) by {
                if other != key {
                    assert(old(self).listed().contains((owner, other)) <==> (old(self).records().contains_key(
                        other,
                    ) && old(self).entity_at(other).spec_owner() == Some(owner)));
                } else {
                    assert(old(self).listed().contains((owner, key)) <==> (old(self).records().contains_key(
                        key,
                    ) && old(self).entity_at(key).spec_owner() == Some(owner)));
                }
            }
            assert forall|other: E::Id| #[trigger]
                self.entries().contains_key(other) <==> old(self).entries().insert(
                    entity.spec_id(),
                    entity,
                ).contains_key(other) by {
                E::lemma_key(other);
            }
            assert forall|other: E::Id| #[trigger] self.entries().contains_key(other) implies 
                self.entries()[other] == old(self).entries().insert(entity.spec_id(), entity)[other] by {
                E::lemma_key(other);
            }
            assert(self.entries() =~= old(self).entries().insert(entity.spec_id(), entity));
        }
        before
    }

    /// Take the entity under the id out of the store, if there is one, and
    /// return it.
    pub fn remove(&mut self, id: &E::Id) -> (before: Option<E>)
        requires
            old(self).wf(),
        ensures
            final(self).wf(),
            final(self).entries() == old(self).entries().remove(*id),
            before == old(self).entries().get(*id),
    {
        let key = E::key(id);
        proof {
            E::lemma_key(*id);
        }
        let before = table_remove(&mut self.table, key);
        let before = Self::unlist(&mut self.index, key, before);
        proof {
            assert forall|other: Key| #[trigger] self.records().contains_key(other) implies E::spec_of_record(
                self.records()[other],
            ) is Some && E::spec_key(self.entity_at(other).spec_id()) == other by {
                assert(old(self).records().contains_key(other));
            }
            assert forall|owner: u64, other: Key| #[trigger]
                self.listed().contains((owner, other)) <==> (self.records().contains_key(other)
                    && self.entity_at(other).spec_owner() == Some(owner)) by {
                assert(old(self).listed().contains((owner, other)) <==> (old(self).records().contains_key(
                    other,
                ) && old(self).entity_at(other).spec_owner() == Some(owner)));
            }
            assert forall|other: E::Id| #[trigger]
                self.entries().contains_key(other) <==> old(self).entries().remove(*id).contains_key(
                    other,
                ) by {
                E::lemma_key(other);
            }
            assert(self.entries() =~= old(self).entries().remove(*id));
        }
        before
    }

    /// List the entities of the store, each once.
    pub fn list(&self) -> (list: Vec<E>)
        requires
            self.wf(),
        ensures
            is_listing(self.entries(), list@),
    {
        let entries = table_entries(&self.table);
        let ghost keys = entries@.map_values(|pair: (Key, Record)| pair.0);
        let mut list: Vec<E> = Vec::new();
        for pair in it: entries.into_iter()
            invariant
                self.wf(),
                it.seq() == entries@,
                keys == entries@.map_values(|pair: (Key, Record)| pair.0),
                forall|i: int|
                    0 <= i < entries@.len() ==> self.records().contains_pair(
                        (#[trigger] entries@[i]).0,
                        entries@[i].1,
                    ),
                list@.len() == it.index(),
                forall|i: int| 0 <= i < list@.len() ==> #[trigger] list@[i] == self.entity_at(keys[i]),
        {
            let ghost n = it.index() as int;
            assert(self.records().contains_pair(entries@[n].0, entries@[n].1));
            match E::of_record(pair.1) {
                Some(entity) => {
                    list.push(entity);
                },
                None => {
                    assert(false);
                },
            }
        }
        proof {
            assert forall|i: int| 0 <= i < list@.len() implies self.entries().contains_key(
                #[trigger] list@[i].spec_id(),
            ) && self.entries()[list@[i].spec_id()] == list@[i] by {
                assert(self.records().contains_pair(entries@[i].0, entries@[i].1));
                assert(keys[i] == entries@[i].0);
            }
            assert forall|id: E::Id| #[trigger] self.entries().contains_key(id) implies exists|i: int|
                0 <= i < list@.len() && #[trigger] list@[i].spec_id() == id by {
                let key = E::spec_key(id);
                let i = choose|i: int| 0 <= i < entries@.len() && (#[trigger] entries@[i]).0 == key;
                assert(keys[i] == key);
                self.lemma_ids(id);
                assert(list@[i].spec_id() == id);
            }
            assert forall|i: int, j: int| 0 <= i < j < list@.len() implies #[trigger] list@[i].spec_id()
                != #[trigger] list@[j].spec_id() by {
                assert(self.records().contains_pair(entries@[i].0, entries@[i].1));
                assert(self.records().contains_pair(entries@[j].0, entries@[j].1));
                assert(keys[i] == entries@[i].0);
                assert(keys[j] == entries@[j].0);
            }
        }
        list
    }

    /// List the ids of the entities that are listed under an owner, each
    /// once, in ascending order of their keys.
    pub fn ids_under(&self, owner: u64) -> (ids: Vec<E::Id>)
        requires
            self.wf(),
        ensures
            forall|id: E::Id|
                ids@.contains(id) <==> (#[trigger] self.entries().contains_key(id)
                    && self.entries()[id].spec_owner() == Some(owner)),
            forall|i: int, j: int|
                0 <= i < j < ids@.len() ==> key_lt(
                    E::spec_key(#[trigger] ids@[i]),
                    E::spec_key(#[trigger] ids@[j]),
                ),
    {
        let keys = key_sets_keys(&self.index, owner);
        let mut ids: Vec<E::Id> = Vec::new();
        let mut i: usize = 0;
        while i < keys.len()
            invariant
                i <= keys.len(),
                ids@.len() == i,
                forall|j: int| 0 <= j < i ==> #[trigger] ids@[j] == E::spec_id_of(keys@[j]),
            decreases keys.len() - i,
        {
            ids.push(E::id_of(keys[i]));
            i += 1;
        }
        proof {
            assert forall|j: int| 0 <= j < keys@.len() implies E::spec_key(#[trigger] ids@[j]) == keys@[j]
                && self.records().contains_key(keys@[j]) && self.entity_at(keys@[j]).spec_owner() == Some(
                owner,
            ) by {
                assert(keys@.contains(keys@[j]));
                assert(self.listed().contains((owner, keys@[j])));
                E::lemma_key(self.entity_at(keys@[j]).spec_id());
            }
            assert forall|id: E::Id|
                ids@.contains(id) <==> (#[trigger] self.entries().contains_key(id)
                    && self.entries()[id].spec_owner() == Some(owner)) by {
                if ids@.contains(id) {
                    let j = choose|j: int| 0 <= j < ids@.len() && ids@[j] == id;
                    assert(E::spec_key(ids@[j]) == keys@[j]);
                }
                if self.entries().contains_key(id) && self.entries()[id].spec_owner() == Some(owner) {
                    let key = E::spec_key(id);
                    assert(self.listed().contains((owner, key)));
                    assert(keys@.contains(key));
                    let j = choose|j: int| 0 <= j < keys@.len() && keys@[j] == key;
                    E::lemma_key(id);
                    assert(ids@[j] == id);
                }
            }
            assert forall|a: int, b: int| 0 <= a < b < ids@.len() implies key_lt(
                E::spec_key(#[trigger] ids@[a]),
                E::spec_key(#[trigger] ids@[b]),
            ) by {
                assert(E::spec_key(ids@[a]) == keys@[a]);
                assert(E::spec_key(ids@[b]) == keys@[b]);
            }
        }
        ids
    }
}

} // verus!
