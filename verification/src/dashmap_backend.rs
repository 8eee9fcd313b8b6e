use dashmap::DashMap;
use dashmap::Entry;
use dashmap::try_result::TryResult;
use std::collections::hash_map::RandomState;
use vstd::prelude::*;

use crate::model::{Value, empty_table, can_update, increment_in_place, lookup, updated};

verus! {

#[verifier::external_type_specification]
#[verifier::external_body]
#[verifier::reject_recursive_types(K)]
#[verifier::reject_recursive_types(V)]
#[verifier::reject_recursive_types(S)]
pub struct ExDashMap<K, V, S>(DashMap<K, V, S>);

/// The entries of a `DashMap` of the tables' key and value types.
///
/// A `DashMap` changes through `&self`, by interior mutability, so its
/// entries are not in general a function of the map value. Here they are:
/// the maps of this crate are kept in private fields and reached only
/// through the wrappers of this module, and every wrapper that changes the
/// entries takes the map by `&mut`. Through a shared reference the entries
/// are thus fixed, and through an exclusive one each change is stated.
///
/// The same discipline settles the shard locks: every guard these wrappers
/// take (a `Ref`, `RefMut` or `Entry`) is dropped before they return, and
/// none is forgotten, so whoever holds the map by `&mut` finds every shard
/// unlocked.
pub uninterp spec fn dashmap_contents(m: DashMap<u64, Value, RandomState>) -> Map<u64, Value>;

/// The `DashMap` that backs the dashmap tables.
pub type ValueDashMap = DashMap<u64, Value, RandomState>;

/// What a non-blocking probe of a shard found.
pub enum Probe<T> {
    /// The shard was free and the key present; its value.
    Present(T),
    /// The shard was free and the key absent.
    Absent,
    /// The shard was locked by someone else.
    Locked,
}

/// `DashMap::new`: claimed to give a map with no entries.
#[verifier::external_body]
pub(crate) fn dashmap_new() -> (r: ValueDashMap)
    ensures
        dashmap_contents(r) == empty_table(),
{
    DashMap::new()
}

/// `DashMap::with_capacity`: claimed to give a map with no entries; the
/// capacity only presizes the shards.
#[verifier::external_body]
pub(crate) fn dashmap_with_capacity(capacity: usize) -> (r: ValueDashMap)
    requires
        capacity <= crate::model::MAX_CAPACITY,
    ensures
        dashmap_contents(r) == empty_table(),
{
    DashMap::with_capacity(capacity)
}

/// `DashMap::with_hasher`: claimed to give a map with no entries.
#[verifier::external_body]
pub(crate) fn dashmap_with_hasher(hasher: RandomState) -> (r: ValueDashMap)
    ensures
        dashmap_contents(r) == empty_table(),
{
    DashMap::with_hasher(hasher)
}

/// `DashMap::with_capacity_and_hasher`: claimed to give a map with no
/// entries; the capacity only presizes the shards.
#[verifier::external_body]
pub(crate) fn dashmap_with_capacity_and_hasher(capacity: usize, hasher: RandomState) -> (r: ValueDashMap)
    requires
        capacity <= crate::model::MAX_CAPACITY,
    ensures
        dashmap_contents(r) == empty_table(),
{
    DashMap::with_capacity_and_hasher(capacity, hasher)
}

/// `DashMap::get`, with the returned guard read out into the value it
/// guards.
///
/// Claimed: the stored value of `key`, or `None` when it is absent.
#[verifier::external_body]
pub(crate) fn dashmap_get(m: &DashMap<u64, Value, RandomState>, key: &u64) -> (r: Option<Value>)
    ensures
        r == lookup(dashmap_contents(*m), *key),
{
    m.get(key).map(|guard| *guard)
}

/// `DashMap::insert`: claimed to map `key` to `value`, leave every other
/// entry as it was, and return the value `key` had before, if any.
#[verifier::external_body]
pub(crate) fn dashmap_insert(m: &mut DashMap<u64, Value, RandomState>, key: u64, value: Value) -> (r:
    Option<Value>)
    ensures
        dashmap_contents(*final(m)) == dashmap_contents(*old(m)).insert(key, value),
        r == lookup(dashmap_contents(*old(m)), key),
{
    m.insert(key, value)
}

/// `DashMap::remove`, with the removed pair read out into its value.
///
/// Claimed: `key` is absent afterwards, every other entry is as it was, and
/// the result is the value `key` had, if any.
#[verifier::external_body]
pub(crate) fn dashmap_remove(m: &mut DashMap<u64, Value, RandomState>, key: &u64) -> (r: Option<
    Value,
>)
    ensures
        dashmap_contents(*final(m)) == dashmap_contents(*old(m)).remove(*key),
        r == lookup(dashmap_contents(*old(m)), *key),
{
    m.remove(key).map(|pair| pair.1)
}

/// `Entry::and_modify` on `DashMap::entry(key)`, with `increment_in_place`
/// as the modification, and the resulting entry read as whether it is
/// occupied.
///
/// Claimed: when `key` is present (the entry is occupied) the modification
/// runs once on its value, which is thus raised by one, and the result is
/// `true`; when it is absent the entry is vacant, the modification does not
/// run, dropping the vacant entry inserts nothing, and the result is `false`.
#[verifier::external_body]
pub(crate) fn dashmap_entry_and_modify_increment(m: &mut DashMap<u64, Value, RandomState>, key: u64) -> (r:
    bool)
    requires
        can_update(dashmap_contents(*old(m)), key),
    ensures
        dashmap_contents(*final(m)) == updated(dashmap_contents(*old(m)), key),
        r == dashmap_contents(*old(m)).contains_key(key),
{
    match m.entry(key).and_modify(|v| increment_in_place(v)) {
        Entry::Occupied(_) => true,
        Entry::Vacant(_) => false,
    }
}

/// `DashMap::try_get`, with a returned guard read out into its value.
///
/// Claimed: the result is never `Locked`, but the stored value of `key` or
/// its absence. While the map is reachable through a shared reference, no
/// shard is write-locked: every wrapper that takes a write lock takes the
/// map by `&mut`, and every guard is dropped before its wrapper returns (see
/// `dashmap_contents`). The shard's shared try-lock fails only when the
/// writer bits are set, so it succeeds.
#[verifier::external_body]
pub(crate) fn dashmap_try_get(m: &DashMap<u64, Value, RandomState>, key: &u64) -> (r: Probe<Value>)
    ensures
        !(r is Locked),
        r is Present ==> dashmap_contents(*m).contains_key(*key) && r->Present_0 == dashmap_contents(
            *m,
        )[*key],
        r is Absent ==> !dashmap_contents(*m).contains_key(*key),
{
    match m.try_get(key) {
        TryResult::Present(guard) => Probe::Present(*guard),
        TryResult::Absent => Probe::Absent,
        TryResult::Locked => Probe::Locked,
    }
}

/// `DashMap::try_get_mut`, with a returned guard read out into its value
/// and released.
///
/// Claimed: the map is not changed, and since it is held exclusively, no
/// guard into it is alive (see `dashmap_contents`); the shard's exclusive
/// try-lock, a compare-exchange from the unlocked state, therefore succeeds,
/// so the result is never `Locked`: it is the stored value of `key` or its
/// absence.
#[verifier::external_body]
pub(crate) fn dashmap_try_get_mut(m: &mut DashMap<u64, Value, RandomState>, key: &u64) -> (r: Probe<
    Value,
>)
    ensures
        dashmap_contents(*final(m)) == dashmap_contents(*old(m)),
        !(r is Locked),
        r is Present ==> dashmap_contents(*old(m)).contains_key(*key) && r->Present_0
            == dashmap_contents(*old(m))[*key],
        r is Absent ==> !dashmap_contents(*old(m)).contains_key(*key),
{
    match m.try_get_mut(key) {
        TryResult::Present(guard) => Probe::Present(*guard),
        TryResult::Absent => Probe::Absent,
        TryResult::Locked => Probe::Locked,
    }
}

/// `DashMap::try_entry`, with the returned entry released at once; the
/// result is whether an entry was handed out, that is, whether the shard's
/// lock could be taken.
///
/// Claimed: the map is not changed (an unused vacant entry inserts nothing),
/// and since it is held exclusively, no guard into it is alive (see
/// `dashmap_contents`); the shard's exclusive try-lock, a compare-exchange
/// from the unlocked state, therefore succeeds, and the result is `true`.
#[verifier::external_body]
pub(crate) fn dashmap_try_entry(m: &mut DashMap<u64, Value, RandomState>, key: u64) -> (r: bool)
    ensures
        dashmap_contents(*final(m)) == dashmap_contents(*old(m)),
        r,
{
    m.try_entry(key).is_some()
}

} // verus!
