//! The concurrent maps of `dashmap` that the in-memory backend keeps its
//! entities and its indexes in.
//!
//! Nothing in this file is proved. Each function makes one call into a
//! `DashMap`, on the map itself or on the set that the map hands out for an
//! owner, and its contract says what the call does to the contents of the
//! map, as the source of `dashmap` shows it. A map is only ever changed
//! through a `&mut` borrow here, so that between two calls nothing else can
//! have changed it. The contents of the two kinds of map have a name each;
//! a name cannot be shared between them, which is why `DashMap::new` stands
//! here twice.

use vstd::prelude::*;
use crate::inmemory::record::Record;
use dashmap::DashMap;
use std::collections::BTreeSet;

verus! {

/// `dashmap::DashMap`, without its fields.
#[verifier::external_type_specification]
#[verifier::external_body]
#[verifier::reject_recursive_types(K)]
#[verifier::reject_recursive_types(V)]
#[verifier::reject_recursive_types(S)]
pub struct ExDashMap<K, V, S>(DashMap<K, V, S>);

/// The key of a record: a single id and 0, or the two halves of the id of
/// what exists once per user and guild.
pub type Key = (u64, u64);

/// The map that holds the records of one entity type.
pub type Table = DashMap<Key, Record>;

/// The map from an owner (a guild or a channel) to the ordered set of the
/// keys that are listed under it.
pub type KeySets = DashMap<u64, BTreeSet<Key>>;

/// The order of keys: that of tuples, by the first half and then by the
/// second.
pub open spec fn key_lt(a: Key, b: Key) -> bool {
    a.0 < b.0 || (a.0 == b.0 && a.1 < b.1)
}

/// What a table holds: the record under each key.
pub uninterp spec fn table_records(table: Table) -> Map<Key, Record>;

/// What an index holds: the pairs of an owner and a key such that the set of
/// the owner holds the key.
pub uninterp spec fn key_sets(sets: KeySets) -> Set<(u64, Key)>;

/// `DashMap::new`: a map that holds nothing.
#[verifier::external_body]
pub(crate) fn table_new() -> (fresh: Table)
    ensures
        table_records(fresh) == (Map::<Key, Record>::empty()),
{
    DashMap::new()
}

/// `DashMap::get`, and a clone of the value that the reference leads to:
/// the record under the key, if there is one. The clone is taken to equal
/// the record, as the `Clone` that `derive` wrote for it makes it.
#[verifier::external_body]
pub(crate) fn table_get(table: &Table, key: Key) -> (found: Option<Record>)
    ensures
        found == table_records(*table).get(key),
{
    table.get(&key).map(|entry| entry.value().clone())
}

/// `DashMap::insert`: the record stands under the key, whatever stood there
/// before, which is returned; no other key changes.
#[verifier::external_body]
pub(crate) fn table_insert(table: &mut Table, key: Key, record: Record) -> (before: Option<Record>)
    ensures
        table_records(*final(table)) == table_records(*old(table)).insert(key, record),
        before == table_records(*old(table)).get(key),
{
    table.insert(key, record)
}

/// `DashMap::remove`: nothing stands under the key, and what stood there is
/// returned; no other key changes.
#[verifier::external_body]
pub(crate) fn table_remove(table: &mut Table, key: Key) -> (before: Option<Record>)
    ensures
        table_records(*final(table)) == table_records(*old(table)).remove(key),
        before == table_records(*old(table)).get(key),
{
    table.remove(&key).map(|pair| pair.1)
}

/// `DashMap::iter`, with a clone of each key and record that it walks over:
/// every key of the map once, with its record. The order is that of the
/// walk, of which nothing is said.
#[verifier::external_body]
pub(crate) fn table_entries(table: &Table) -> (entries: Vec<(Key, Record)>)
    ensures
        forall|i: int|
            0 <= i < entries@.len() ==> table_records(*table).contains_pair(
                (#[trigger] entries@[i]).0,
                entries@[i].1,
            ),
        forall|key: Key| #[trigger]
            table_records(*table).contains_key(key) ==> exists|i: int|
                0 <= i < entries@.len() && (#[trigger] entries@[i]).0 == key,
        forall|i: int, j: int|
            0 <= i < j < entries@.len() ==> (#[trigger] entries@[i]).0 != (#[trigger] entries@[j]).0,
{
    let mut entries = Vec::new();
    for entry in table.iter() {
        entries.push((*entry.key(), entry.value().clone()));
    }
    entries
}

/// `DashMap::new`: an index that holds nothing.
#[verifier::external_body]
pub(crate) fn key_sets_new() -> (fresh: KeySets)
    ensures
        key_sets(fresh) == (Set::<(u64, Key)>::empty()),
{
    DashMap::new()
}

/// `DashMap::entry` and `Entry::or_default`, and `BTreeSet::insert` on the
/// set that they lead to: the set of the owner holds the key; nothing else
/// changes.
#[verifier::external_body]
pub(crate) fn key_sets_insert(sets: &mut KeySets, owner: u64, key: Key)
    ensures
        key_sets(*final(sets)) == key_sets(*old(sets)).insert((owner, key)),
{
    sets.entry(owner).or_default().insert(key);
}

/// `DashMap::get_mut`, and `BTreeSet::remove` on the set that it leads to,
/// if there is one: the set of the owner does not hold the key; nothing else
/// changes.
#[verifier::external_body]
pub(crate) fn key_sets_remove(sets: &mut KeySets, owner: u64, key: Key)
    ensures
        key_sets(*final(sets)) == key_sets(*old(sets)).remove((owner, key)),
{
    sets.get_mut(&owner).map(|mut set| set.remove(&key));
}

/// `DashMap::get`, and the keys that `BTreeSet::iter` walks over on the set
/// that it leads to: the keys of the owner, each once, in ascending order.
/// An owner without a set has no keys.
#[verifier::external_body]
pub(crate) fn key_sets_keys(sets: &KeySets, owner: u64) -> (keys: Vec<Key>)
    ensures
        forall|key: Key| keys@.contains(key) <==> #[trigger] key_sets(*sets).contains((owner, key)),
        forall|i: int, j: int| 0 <= i < j < keys@.len() ==> key_lt(#[trigger] keys@[i], #[trigger] keys@[j]),
{
    sets.get(&owner).map(|set| set.iter().copied().collect()).unwrap_or_default()
}

} // verus!
