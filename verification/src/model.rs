use vstd::prelude::*;

verus! {

/// The values stored by every table. A key is inserted with value `0`, and
/// each update adds one to it.
pub type Value = u32;

/// The largest initial capacity that the `dashmap` and `scc` tables accept.
///
/// Both backends compute the size of their first allocation from the
/// capacity in `usize` arithmetic, and that arithmetic overflows (and
/// panics) for capacities close to `usize::MAX`:
/// - `dashmap` rounds the capacity up to a multiple of its shard count (at
///   least 4) and presizes each shard's `hashbrown` table for its share;
///   `hashbrown` multiplies that share by 8/7, rounds to a power of two and
///   multiplies by the 17 bytes a `(u64, u32)` bucket takes, which must stay
///   within `isize::MAX`.
/// - `scc` turns the capacity into a power-of-two number of 32-entry buckets
///   and multiplies it by the 512 bytes of a data block.
///
/// A capacity of at most `usize::MAX / 64` keeps every one of these products
/// in range, on 32-bit and 64-bit targets alike. (`flurry` clamps any
/// capacity to its own maximum, and an ordered map does not presize, so
/// those tables take any capacity.)
pub const MAX_CAPACITY: usize = usize::MAX / 64;

/// The value a freshly inserted key receives.
pub open spec fn initial_value() -> Value {
    0
}

/// The table with no entries.
pub open spec fn empty_table() -> Map<u64, Value> {
    Map::empty()
}

/// Whether `key` is present in the table `m`: the answer of a lookup.
pub open spec fn found(m: Map<u64, Value>, key: u64) -> bool {
    m.contains_key(key)
}

/// The value stored for `key` in `m`, if any: what a read of the key hands
/// back.
pub open spec fn lookup(m: Map<u64, Value>, key: u64) -> Option<Value> {
    if m.contains_key(key) {
        Some(m[key])
    } else {
        None
    }
}

/// The table after an insert that overwrites: `key` maps to the initial
/// value, whether or not it was present before.
pub open spec fn inserted(m: Map<u64, Value>, key: u64) -> Map<u64, Value> {
    m.insert(key, initial_value())
}

/// The table after an insert that keeps an existing entry: a present key
/// keeps its value, an absent one is added with the initial value.
pub open spec fn inserted_if_absent(m: Map<u64, Value>, key: u64) -> Map<u64, Value> {
    if m.contains_key(key) {
        m
    } else {
        m.insert(key, initial_value())
    }
}

/// The table after removing `key`.
pub open spec fn removed(m: Map<u64, Value>, key: u64) -> Map<u64, Value> {
    m.remove(key)
}

/// The table after an update of `key`: a present key has its value raised
/// by one, and an absent key is left absent.
pub open spec fn updated(m: Map<u64, Value>, key: u64) -> Map<u64, Value> {
    if m.contains_key(key) {
        m.insert(key, (m[key] + 1) as Value)
    } else {
        m
    }
}

/// An update of `key` does not overflow the stored value.
pub open spec fn can_update(m: Map<u64, Value>, key: u64) -> bool {
    m.contains_key(key) ==> m[key] < Value::MAX
}

/// The value that an update stores in place of `v`.
pub open spec fn incremented(v: Value) -> Value {
    (v + 1) as Value
}

/// Raises the value behind `v` by one.
///
/// The backends that apply an update in place, under their own lock, are
/// handed this function to run on the stored value.
pub fn increment_in_place(v: &mut Value)
    requires
        *old(v) < Value::MAX,
    ensures
        *final(v) == incremented(*old(v)),
        *final(v) == *old(v) + 1,
{
    *v = *v + 1;
}

/// The value that an update stores in place of `v`, as a new mapping.
///
/// The backends that recompute a stored value from the old one are handed
/// this function.
pub fn incremented_mapping(v: &Value) -> (r: Option<Value>)
    requires
        *v < Value::MAX,
    ensures
        r == Some(incremented(*v)),
        r == Some((*v + 1) as Value),
{
    Some(*v + 1)
}

/// After an insert, a lookup of the same key finds it.
pub proof fn law_insert_then_found(m: Map<u64, Value>, key: u64)
    ensures
        found(inserted(m, key), key),
        found(inserted_if_absent(m, key), key),
{
}

/// Inserting the same key twice leaves the table as one insert does.
pub proof fn law_insert_twice(m: Map<u64, Value>, key: u64)
    ensures
        inserted(inserted(m, key), key) == inserted(m, key),
        inserted_if_absent(inserted_if_absent(m, key), key) == inserted_if_absent(m, key),
{
    assert(inserted(inserted(m, key), key) =~= inserted(m, key));
}

/// After a remove, a lookup of the same key does not find it, and a second
/// remove reports that nothing was there.
pub proof fn law_remove_then_not_found(m: Map<u64, Value>, key: u64)
    ensures
        !found(removed(m, key), key),
        removed(removed(m, key), key) == removed(m, key),
{
    assert(removed(removed(m, key), key) =~= removed(m, key));
}

/// Removing a key that an insert has just added undoes the insert.
pub proof fn law_remove_undoes_insert(m: Map<u64, Value>, key: u64)
    requires
        !found(m, key),
    ensures
        removed(inserted(m, key), key) == m,
        removed(inserted_if_absent(m, key), key) == m,
{
    assert(removed(inserted(m, key), key) =~= m);
    assert(removed(inserted_if_absent(m, key), key) =~= m);
}

/// Both kinds of insert agree on a key that is absent; on a present key the
/// overwriting insert resets the value and the other leaves the table as it
/// was.
pub proof fn law_inserts_agree_when_absent(m: Map<u64, Value>, key: u64)
    ensures
        !found(m, key) ==> inserted_if_absent(m, key) == inserted(m, key),
        found(m, key) ==> inserted_if_absent(m, key) == m,
        inserted(m, key)[key] == initial_value(),
{
}

/// An update never adds or removes a key; it raises the value of a present
/// key by exactly one.
pub proof fn law_update_keeps_keys(m: Map<u64, Value>, key: u64)
    requires
        can_update(m, key),
    ensures
        updated(m, key).dom() == m.dom(),
        found(m, key) ==> updated(m, key)[key] == m[key] + 1,
        !found(m, key) ==> updated(m, key) == m,
{
    if m.contains_key(key) {
        assert(updated(m, key).dom() =~= m.dom());
    }
}

/// An update right after an insert finds the key and leaves it with value
/// one.
pub proof fn law_update_after_insert(m: Map<u64, Value>, key: u64)
    ensures
        can_update(inserted(m, key), key),
        found(inserted(m, key), key),
        updated(inserted(m, key), key)[key] == initial_value() + 1,
{
}

/// A lookup finds `key` exactly when a read of it hands back a value.
pub proof fn law_found_iff_value(m: Map<u64, Value>, key: u64)
    ensures
        found(m, key) <==> lookup(m, key) is Some,
{
}

/// A read right after writing `value` under `key` hands back `value`, and a
/// read right after removing `key` hands back nothing.
pub proof fn law_read_after_write(m: Map<u64, Value>, key: u64, value: Value)
    ensures
        lookup(m.insert(key, value), key) == Some(value),
        lookup(inserted(m, key), key) == Some(initial_value()),
        lookup(removed(m, key), key) == None::<Value>,
{
}

/// Writing back the value that a write replaced, or re-inserting the value
/// that a remove took out, restores the table.
pub proof fn law_write_back_restores(m: Map<u64, Value>, key: u64, value: Value)
    requires
        found(m, key),
    ensures
        m.insert(key, value).insert(key, m[key]) == m,
        removed(m, key).insert(key, m[key]) == m,
{
    assert(m.insert(key, value).insert(key, m[key]) =~= m);
    assert(removed(m, key).insert(key, m[key]) =~= m);
}

/// Each operation on `key` leaves every other key, and its value, as it was.
pub proof fn law_other_keys_untouched(m: Map<u64, Value>, key: u64, other: u64)
    requires
        other != key,
    ensures
        found(inserted(m, key), other) == found(m, other),
        found(inserted_if_absent(m, key), other) == found(m, other),
        found(removed(m, key), other) == found(m, other),
        found(updated(m, key), other) == found(m, other),
        found(m, other) ==> {
            &&& inserted(m, key)[other] == m[other]
            &&& inserted_if_absent(m, key)[other] == m[other]
            &&& removed(m, key)[other] == m[other]
            &&& updated(m, key)[other] == m[other]
        },
{
}

} // verus!
