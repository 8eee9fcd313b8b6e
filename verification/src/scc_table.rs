use std::collections::hash_map::RandomState;
use std::hash::BuildHasher;
use vstd::prelude::*;

use crate::hasher::default_random_state;
use crate::model::{
    MAX_CAPACITY, Value, can_update, empty_table, found, increment_in_place, inserted_if_absent,
    lookup, removed, updated,
};

verus! {

#[verifier::external_type_specification]
#[verifier::external_body]
#[verifier::reject_recursive_types(K)]
#[verifier::reject_recursive_types(V)]
#[verifier::reject_recursive_types(H)]
pub struct ExSccHashMap<K, V, H: BuildHasher>(scc::HashMap<K, V, H>);

/// The `scc::HashMap` that backs the scc table.
pub type ValueSccMap = scc::HashMap<u64, Value, RandomState>;

/// The entries of an `scc::HashMap` of the tables' key and value types.
pub uninterp spec fn scc_contents(m: scc::HashMap<u64, Value, RandomState>) -> Map<u64, Value>;

/// `scc::HashMap::with_capacity_and_hasher`: claimed to give a map with no
/// entries; the capacity only presizes the bucket array.
#[verifier::external_body]
fn scc_with_capacity_and_hasher(capacity: usize, hasher: RandomState) -> (r: ValueSccMap)
    requires
        capacity <= MAX_CAPACITY,
    ensures
        scc_contents(r) == empty_table(),
{
    scc::HashMap::with_capacity_and_hasher(capacity, hasher)
}

/// `scc::HashMap::read`, with a reader that copies the value out.
///
/// Claimed: the stored value of `key`, or `None` when it is absent.
#[verifier::external_body]
fn scc_read(m: &ValueSccMap, key: &u64) -> (r: Option<Value>)
    ensures
        r == lookup(scc_contents(*m), *key),
{
    m.read(key, |_, v| *v)
}

/// `scc::HashMap::insert`, with its result read as whether it succeeded.
///
/// Claimed: when `key` is absent it is added with `value` and the result is
/// `true`; when it is present the map is left unchanged (the existing value
/// is kept) and the result is `false`.
#[verifier::external_body]
fn scc_insert(m: &mut ValueSccMap, key: u64, value: Value) -> (r: bool)
    ensures
        r == !scc_contents(*old(m)).contains_key(key),
        scc_contents(*final(m)) == (if scc_contents(*old(m)).contains_key(key) {
            scc_contents(*old(m))
        } else {
            scc_contents(*old(m)).insert(key, value)
        }),
{
    m.insert(key, value).is_ok()
}

/// `scc::HashMap::remove`, with the removed pair read out into its value.
///
/// Claimed: `key` is absent afterwards, every other entry is as it was, and
/// the result is the value `key` had, if any.
#[verifier::external_body]
fn scc_remove(m: &mut ValueSccMap, key: &u64) -> (r: Option<Value>)
    ensures
        scc_contents(*final(m)) == scc_contents(*old(m)).remove(*key),
        r == lookup(scc_contents(*old(m)), *key),
{
    m.remove(key).map(|pair| pair.1)
}

/// `scc::HashMap::update`, with `increment_in_place` as the updater and its
/// result read as whether the key was found.
///
/// Claimed: when `key` is present the updater runs once on its value, which
/// is thus raised by one, and the result is `true`; when it is absent
/// nothing changes and the result is `false`.
#[verifier::external_body]
fn scc_update_increment(m: &mut ValueSccMap, key: &u64) -> (r: bool)
    requires
        can_update(scc_contents(*old(m)), *key),
    ensures
        scc_contents(*final(m)) == updated(scc_contents(*old(m)), *key),
        r == scc_contents(*old(m)).contains_key(*key),
{
    m.update(key, |_, v| increment_in_place(v)).is_some()
}

/// A table kept in a scalable concurrent hash map. Unlike the other tables,
/// its insert keeps the value of a key that is already present.
pub struct SccMapTable {
    map: ValueSccMap,
}

impl View for SccMapTable {
    type V = Map<u64, Value>;

    open spec fn view(&self) -> Map<u64, Value> {
        self.map_view()
    }
}

impl SccMapTable {
    /// The entries of the table.
    pub closed spec fn map_view(&self) -> Map<u64, Value> {
        scc_contents(self.map)
    }

    /// An empty table presized for `capacity` entries, hashing with a freshly
    /// seeded hasher.
    pub fn with_capacity(capacity: usize) -> (t: Self)
        requires
            capacity <= MAX_CAPACITY,
        ensures
            t@ == empty_table(),
    {
        SccMapTable { map: scc_with_capacity_and_hasher(capacity, default_random_state()) }
    }

    /// Looks `key` up; `true` when it is present.
    pub fn get(&self, key: &u64) -> (r: bool)
        ensures
            r == found(self@, *key),
    {
        let v = scc_read(&self.map, key);
        v.is_some()
    }

    /// The value stored for `key`, or `None` when it is absent.
    pub fn value(&self, key: &u64) -> (r: Option<Value>)
        ensures
            r == lookup(self@, *key),
    {
        scc_read(&self.map, key)
    }

    /// Inserts `key` with the initial value unless it is already present, in
    /// which case its value is kept; `true` when the key was absent before.
    pub fn insert(&mut self, key: &u64) -> (r: bool)
        ensures
            final(self)@ == inserted_if_absent(old(self)@, *key),
            r == !found(old(self)@, *key),
    {
        scc_insert(&mut self.map, *key, 0)
    }

    /// Removes `key`; `true` when it was present.
    pub fn remove(&mut self, key: &u64) -> (r: bool)
        ensures
            final(self)@ == removed(old(self)@, *key),
            r == found(old(self)@, *key),
    {
        let prev = scc_remove(&mut self.map, key);
        prev.is_some()
    }

    /// Raises the value of `key` by one if it is present, and never adds it;
    /// `true` when it was present.
    pub fn update(&mut self, key: &u64) -> (r: bool)
        requires
            can_update(old(self)@, *key),
        ensures
            final(self)@ == updated(old(self)@, *key),
            r == found(old(self)@, *key),
    {
        scc_update_increment(&mut self.map, key)
    }
}

} // verus!
