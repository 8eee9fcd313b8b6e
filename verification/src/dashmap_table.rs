use dashmap::DashMap;
use std::collections::hash_map::RandomState;
use vstd::prelude::*;

use crate::dashmap_backend::{
    dashmap_contents, dashmap_entry_and_modify_increment, dashmap_get, dashmap_insert, dashmap_remove,
    dashmap_with_capacity_and_hasher,
};
use crate::hasher::default_random_state;
use crate::model::{MAX_CAPACITY, Value, empty_table, can_update, found, inserted, lookup, removed, updated};

verus! {

/// A table kept in a sharded concurrent hash map.
pub struct DashMapTable {
    map: DashMap<u64, Value, RandomState>,
}

impl View for DashMapTable {
    type V = Map<u64, Value>;

    open spec fn view(&self) -> Map<u64, Value> {
        self.map_view()
    }
}

impl DashMapTable {
    /// The entries of the table.
    pub closed spec fn map_view(&self) -> Map<u64, Value> {
        dashmap_contents(self.map)
    }

    /// An empty table whose shards are presized for `capacity` entries,
    /// hashing with a freshly seeded hasher.
    pub fn with_capacity(capacity: usize) -> (t: Self)
        requires
            capacity <= MAX_CAPACITY,
        ensures
            t@ == empty_table(),
    {
        DashMapTable { map: dashmap_with_capacity_and_hasher(capacity, default_random_state()) }
    }

    /// Looks `key` up; `true` when it is present.
    pub fn get(&self, key: &u64) -> (r: bool)
        ensures
            r == found(self@, *key),
    {
        let v = dashmap_get(&self.map, key);
        v.is_some()
    }

    /// The value stored for `key`, or `None` when it is absent.
    pub fn value(&self, key: &u64) -> (r: Option<Value>)
        ensures
            r == lookup(self@, *key),
    {
        dashmap_get(&self.map, key)
    }

    /// Inserts `key` with the initial value, replacing any value it had;
    /// `true` when the key was absent before.
    pub fn insert(&mut self, key: &u64) -> (r: bool)
        ensures
            final(self)@ == inserted(old(self)@, *key),
            r == !found(old(self)@, *key),
    {
        let prev = dashmap_insert(&mut self.map, *key, 0);
        prev.is_none()
    }

    /// Removes `key`; `true` when it was present.
    pub fn remove(&mut self, key: &u64) -> (r: bool)
        ensures
            final(self)@ == removed(old(self)@, *key),
            r == found(old(self)@, *key),
    {
        let prev = dashmap_remove(&mut self.map, key);
        prev.is_some()
    }

    /// Raises the value of `key` by one if it is present, and never adds it;
    /// `true` when it was present.
    pub fn update(&mut self, key: &u64) -> (r: bool)
        requires
            can_update(old(self)@, *key),
        ensures
            final(self)@ == updated(old(self)@, *key),
            r == found(old(self)@, *key),
    {
        dashmap_entry_and_modify_increment(&mut self.map, *key)
    }
}

} // verus!
