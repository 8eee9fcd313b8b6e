use std::collections::BTreeMap;
use vstd::prelude::*;

use crate::model::{Value, empty_table, found, lookup, inserted, removed, updated, can_update, increment_in_place};

verus! {

broadcast use vstd::laws_cmp::group_laws_cmp;

/// `BTreeMap::get_mut` of std: a mutable reference to the value of `key`,
/// or `None` when the key is absent.
///
/// Claimed: the result is `None` exactly when the key is absent, and then
/// the map is unchanged; otherwise it refers to the key's current value,
/// and the map afterwards holds, for `key`, whatever was written through
/// it, and is otherwise unchanged.
#[verifier::external_body]
fn btree_get_mut<'a>(map: &'a mut BTreeMap<u64, Value>, key: &u64) -> (r: Option<&'a mut Value>)
    ensures
        match r {
            None => {
                &&& !old(map)@.contains_key(*key)
                &&& final(map)@ == old(map)@
            },
            Some(v) => {
                &&& old(map)@.contains_key(*key)
                &&& *v == old(map)@[*key]
                &&& final(map)@ == old(map)@.insert(*key, *final(v))
            },
        },
{
    map.get_mut(key)
}

/// A table kept in an ordered map, the backend that the lock-protected
/// tables guard.
pub struct BTreeMapTable {
    map: BTreeMap<u64, Value>,
}

impl View for BTreeMapTable {
    type V = Map<u64, Value>;

    open spec fn view(&self) -> Map<u64, Value> {
        self.map_view()
    }
}

impl BTreeMapTable {
    /// The entries of the table.
    pub closed spec fn map_view(&self) -> Map<u64, Value> {
        self.map@
    }

    /// An empty table. An ordered map does not reserve space in advance, so
    /// the capacity is not used.
    pub fn with_capacity(capacity: usize) -> (t: Self)
        ensures
            t@ == empty_table(),
    {
        BTreeMapTable { map: BTreeMap::new() }
    }

    /// Looks `key` up; `true` when it is present.
    pub fn get(&self, key: &u64) -> (r: bool)
        ensures
            r == found(self@, *key),
    {
        self.map.get(key).is_some()
    }

    /// The value stored for `key`, or `None` when it is absent.
    pub fn value(&self, key: &u64) -> (r: Option<Value>)
        ensures
            r == lookup(self@, *key),
    {
        match self.map.get(key) {
            Some(v) => Some(*v),
            None => None,
        }
    }

    /// Inserts `key` with the initial value, replacing any value it had;
    /// `true` when the key was absent before.
    pub fn insert(&mut self, key: &u64) -> (r: bool)
        ensures
            final(self)@ == inserted(old(self)@, *key),
            r == !found(old(self)@, *key),
    {
        self.map.insert(*key, 0).is_none()
    }

    /// Removes `key`; `true` when it was present.
    pub fn remove(&mut self, key: &u64) -> (r: bool)
        ensures
            final(self)@ == removed(old(self)@, *key),
            r == found(old(self)@, *key),
    {
        self.map.remove(key).is_some()
    }

    /// Raises the value of `key` by one if it is present, and never adds it;
    /// `true` when it was present.
    pub fn update(&mut self, key: &u64) -> (r: bool)
        requires
            can_update(old(self)@, *key),
        ensures
            final(self)@ == updated(old(self)@, *key),
            r == found(old(self)@, *key),
    {
        match btree_get_mut(&mut self.map, key) {
            Some(v) => {
                increment_in_place(v);
                true
            },
            None => false,
        }
    }
}

} // verus!
