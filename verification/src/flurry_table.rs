use seize::Collector;
use std::collections::hash_map::RandomState;
use vstd::prelude::*;

use crate::hasher::default_random_state;
use crate::model::{
    Value, can_update, empty_table, found, incremented_mapping, inserted, lookup,
    removed, updated,
};

verus! {

#[verifier::external_type_specification]
#[verifier::external_body]
#[verifier::reject_recursive_types(K)]
#[verifier::reject_recursive_types(V)]
#[verifier::reject_recursive_types(S)]
pub struct ExFlurryHashMap<K, V, S>(flurry::HashMap<K, V, S>);

#[verifier::external_type_specification]
#[verifier::external_body]
pub struct ExCollector(Collector);

/// The `flurry::HashMap` that backs the flurry table.
pub type ValueFlurryMap = flurry::HashMap<u64, Value, RandomState>;

/// The entries of a `flurry::HashMap` of the tables' key and value types.
pub uninterp spec fn flurry_contents(m: flurry::HashMap<u64, Value, RandomState>) -> Map<u64, Value>;

/// How many retired objects the table's memory collector gathers before it
/// tries to reclaim them.
pub const BATCH_SIZE: usize = 2000;

/// `seize::Collector::new`: a memory collector with default settings.
/// Nothing is claimed of it.
#[verifier::external_body]
fn collector_new() -> Collector {
    Collector::new()
}

/// `seize::Collector::epoch_frequency` with `None`: the collector with
/// epochs turned off. (The argument is written here because its type,
/// `Option<NonZeroU64>`, cannot be named in verified code.) Nothing is
/// claimed of it.
#[verifier::external_body]
fn collector_without_epochs(collector: Collector) -> Collector {
    collector.epoch_frequency(None)
}

/// `seize::Collector::batch_size`: the collector with its batch size set to
/// `n`. Nothing is claimed of it.
#[verifier::external_body]
fn collector_batch_size(collector: Collector, n: usize) -> Collector {
    collector.batch_size(n)
}

/// `flurry::HashMap::with_capacity_and_hasher`: claimed to give a map with
/// no entries; the capacity only presizes the table, and is clamped to
/// flurry's own maximum table size.
#[verifier::external_body]
fn flurry_with_capacity_and_hasher(capacity: usize, hasher: RandomState) -> (r: ValueFlurryMap)
    ensures
        flurry_contents(r) == empty_table(),
{
    flurry::HashMap::with_capacity_and_hasher(capacity, hasher)
}

/// `flurry::HashMap::with_collector`: claimed to give the same map, with its
/// entries unchanged, now reclaiming memory through `collector`.
#[verifier::external_body]
fn flurry_with_collector(m: ValueFlurryMap, collector: Collector) -> (r: ValueFlurryMap)
    ensures
        flurry_contents(r) == flurry_contents(m),
{
    m.with_collector(collector)
}

/// `flurry::HashMap::get`, through a pinned reference, with the returned
/// reference read out into the value.
///
/// Claimed: the stored value of `key`, or `None` when it is absent.
#[verifier::external_body]
fn flurry_get(m: &ValueFlurryMap, key: &u64) -> (r: Option<Value>)
    ensures
        r == lookup(flurry_contents(*m), *key),
{
    m.pin().get(key).copied()
}

/// `flurry::HashMap::insert`, through a pinned reference, with the returned
/// reference read out into the value.
///
/// Claimed: `key` maps to `value`, every other entry is as it was, and the
/// result is the value `key` had before, if any.
#[verifier::external_body]
fn flurry_insert(m: &mut ValueFlurryMap, key: u64, value: Value) -> (r: Option<Value>)
    ensures
        flurry_contents(*final(m)) == flurry_contents(*old(m)).insert(key, value),
        r == lookup(flurry_contents(*old(m)), key),
{
    m.pin().insert(key, value).copied()
}

/// `flurry::HashMap::remove`, through a pinned reference, with the returned
/// reference read out into the value.
///
/// Claimed: `key` is absent afterwards, every other entry is as it was, and
/// the result is the value `key` had, if any.
#[verifier::external_body]
fn flurry_remove(m: &mut ValueFlurryMap, key: &u64) -> (r: Option<Value>)
    ensures
        flurry_contents(*final(m)) == flurry_contents(*old(m)).remove(*key),
        r == lookup(flurry_contents(*old(m)), *key),
{
    m.pin().remove(key).copied()
}

/// `flurry::HashMap::compute_if_present`, through a pinned reference, with
/// `incremented_mapping` as the remapping function and the returned
/// reference read out into the value.
///
/// Claimed: when `key` is present, the remapping function is run once on its
/// value, the key now maps to the value raised by one, and that new value is
/// returned; when it is absent, nothing changes and the result is `None`.
#[verifier::external_body]
fn flurry_compute_if_present_incremented(m: &mut ValueFlurryMap, key: &u64) -> (r: Option<Value>)
    requires
        can_update(flurry_contents(*old(m)), *key),
    ensures
        flurry_contents(*final(m)) == updated(flurry_contents(*old(m)), *key),
        r == lookup(updated(flurry_contents(*old(m)), *key), *key),
{
    m.pin().compute_if_present(key, |_, v| incremented_mapping(v)).copied()
}

/// A table kept in a lock-free concurrent hash map whose memory is reclaimed
/// in batches of `BATCH_SIZE`, with epochs turned off.
pub struct FlurryTable {
    map: ValueFlurryMap,
}

impl View for FlurryTable {
    type V = Map<u64, Value>;

    open spec fn view(&self) -> Map<u64, Value> {
        self.map_view()
    }
}

impl FlurryTable {
    /// The entries of the table.
    pub closed spec fn map_view(&self) -> Map<u64, Value> {
        flurry_contents(self.map)
    }

    /// An empty table presized for `capacity` entries, hashing with a freshly
    /// seeded hasher.
    pub fn with_capacity(capacity: usize) -> (t: Self)
        ensures
            t@ == empty_table(),
    {
        let map = flurry_with_capacity_and_hasher(capacity, default_random_state());
        let collector = collector_batch_size(collector_without_epochs(collector_new()), BATCH_SIZE);
        FlurryTable { map: flurry_with_collector(map, collector) }
    }

    /// Looks `key` up; `true` when it is present.
    pub fn get(&self, key: &u64) -> (r: bool)
        ensures
            r == found(self@, *key),
    {
        let v = flurry_get(&self.map, key);
        v.is_some()
    }

    /// The value stored for `key`, or `None` when it is absent.
    pub fn value(&self, key: &u64) -> (r: Option<Value>)
        ensures
            r == lookup(self@, *key),
    {
        flurry_get(&self.map, key)
    }

    /// Inserts `key` with the initial value, replacing any value it had;
    /// `true` when the key was absent before.
    pub fn insert(&mut self, key: &u64) -> (r: bool)
        ensures
            final(self)@ == inserted(old(self)@, *key),
            r == !found(old(self)@, *key),
    {
        let prev = flurry_insert(&mut self.map, *key, 0);
        prev.is_none()
    }

    /// Removes `key`; `true` when it was present.
    pub fn remove(&mut self, key: &u64) -> (r: bool)
        ensures
            final(self)@ == removed(old(self)@, *key),
            r == found(old(self)@, *key),
    {
        let prev = flurry_remove(&mut self.map, key);
        prev.is_some()
    }

    /// Raises the value of `key` by one if it is present, and never adds it;
    /// `true` when it was present.
    pub fn update(&mut self, key: &u64) -> (r: bool)
        requires
            can_update(old(self)@, *key),
        ensures
            final(self)@ == updated(old(self)@, *key),
            r == found(old(self)@, *key),
    {
        let new_value = flurry_compute_if_present_incremented(&mut self.map, key);
        new_value.is_some()
    }
}

} // verus!
