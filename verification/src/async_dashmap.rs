use std::collections::hash_map::RandomState;
use vstd::prelude::*;

use crate::dashmap_backend::{
    Probe, ValueDashMap, dashmap_contents, dashmap_get, dashmap_insert,
    dashmap_new, dashmap_remove, dashmap_try_entry, dashmap_try_get, dashmap_try_get_mut,
    dashmap_with_capacity, dashmap_with_capacity_and_hasher, dashmap_with_hasher,
};
use crate::hasher::default_random_state;
use crate::model::{
    MAX_CAPACITY, Value, can_update, empty_table, found, inserted, lookup, removed, updated,
};
use crate::step::Step;

verus! {

/// A sharded concurrent hash map whose operations never block on a shard
/// lock: each is a future whose poll makes one non-blocking attempt. A probe
/// that found its shard locked would leave the map as it was and report
/// `Step::Pending` (the `resume` methods state this); but a shard is never
/// locked when an attempt runs, since reads share the map and writes hold it
/// exclusively, so every poll completes.
///
/// The operations are handed out as futures (`GetFuture`, `InsertFuture`,
/// ...), each of which is advanced by its `poll` method.
pub struct AsyncDashMap {
    inner: ValueDashMap,
}

impl View for AsyncDashMap {
    type V = Map<u64, Value>;

    open spec fn view(&self) -> Map<u64, Value> {
        self.map_view()
    }
}

impl AsyncDashMap {
    /// The entries of the map.
    pub closed spec fn map_view(&self) -> Map<u64, Value> {
        dashmap_contents(self.inner)
    }

    /// An empty map.
    pub fn new() -> (m: Self)
        ensures
            m@ == empty_table(),
    {
        AsyncDashMap { inner: dashmap_new() }
    }

    /// An empty map whose shards are presized for `capacity` entries.
    pub fn with_capacity(capacity: usize) -> (m: Self)
        requires
            capacity <= MAX_CAPACITY,
        ensures
            m@ == empty_table(),
    {
        AsyncDashMap { inner: dashmap_with_capacity(capacity) }
    }

    /// An empty map hashing with `hash_builder`.
    pub fn with_hasher(hash_builder: RandomState) -> (m: Self)
        ensures
            m@ == empty_table(),
    {
        AsyncDashMap { inner: dashmap_with_hasher(hash_builder) }
    }

    /// An empty map presized for `capacity` entries and hashing with
    /// `hash_builder`.
    pub fn with_capacity_and_hasher(capacity: usize, hash_builder: RandomState) -> (m: Self)
        requires
            capacity <= MAX_CAPACITY,
        ensures
            m@ == empty_table(),
    {
        AsyncDashMap { inner: dashmap_with_capacity_and_hasher(capacity, hash_builder) }
    }

    /// The future of a look at the entry of `key`.
    pub fn entry(&self, key: u64) -> (f: EntryFuture)
        ensures
            f.key == key,
    {
        EntryFuture { key }
    }

    /// The future of a lookup of `key`.
    pub fn get(&self, key: &u64) -> (f: GetFuture)
        ensures
            f.key == *key,
    {
        GetFuture { key: *key }
    }

    /// The future of a lookup of `key` under the shard's write lock, the
    /// first half of an in-place change of its value.
    pub fn get_mut(&self, key: &u64) -> (f: GetMutFuture)
        ensures
            f.key == *key,
    {
        GetMutFuture { key: *key }
    }

    /// The future of an insert of `key` with `value`.
    pub fn insert(&self, key: u64, value: Value) -> (f: InsertFuture)
        ensures
            f.key == key,
            f.value == Some(value),
    {
        InsertFuture { key, value: Some(value) }
    }

    /// The future of a removal of `key`.
    pub fn remove(&self, key: u64) -> (f: RemoveFuture)
        ensures
            f.key == key,
    {
        RemoveFuture { key }
    }
}

impl Default for AsyncDashMap {
    fn default() -> (m: Self)
        ensures
            m@ == empty_table(),
    {
        Self::new()
    }
}

/// A pending look at the entry of `key`.
pub struct EntryFuture {
    pub key: u64,
}

impl EntryFuture {
    /// One attempt: the key's shard is locked for writing, as an entry
    /// needs; the map is held exclusively, so the lock is always taken and
    /// the attempt is ready with the value the entry holds (`None` for a
    /// vacant entry). The map is not changed.
    pub fn poll(&mut self, map: &mut AsyncDashMap) -> (r: Step<Option<Value>>)
        ensures
            *final(self) == *old(self),
            final(map)@ == old(map)@,
            r == Step::Ready(lookup(old(map)@, old(self).key)),
    {
        let shard_free = dashmap_try_entry(&mut map.inner, self.key);
        self.resume(map, shard_free)
    }

    /// The rest of an attempt, once it is known whether the key's shard
    /// could be locked: ready with the value the entry holds when it could,
    /// pending when it could not.
    pub fn resume(&mut self, map: &AsyncDashMap, shard_free: bool) -> (r: Step<Option<Value>>)
        ensures
            *final(self) == *old(self),
            r == (if shard_free {
                Step::Ready(lookup(map@, old(self).key))
            } else {
                Step::Pending
            }),
    {
        if shard_free {
            Step::Ready(dashmap_get(&map.inner, &self.key))
        } else {
            Step::Pending
        }
    }
}

/// A pending lookup of `key`.
pub struct GetFuture {
    pub key: u64,
}

impl GetFuture {
    /// One attempt: the key's shard is locked for reading; while the map is
    /// shared no shard is write-locked (every write takes the map
    /// exclusively), so the lock is always taken and the attempt is ready
    /// with the stored value (`None` when the key is absent).
    pub fn poll(&mut self, map: &AsyncDashMap) -> (r: Step<Option<Value>>)
        ensures
            *final(self) == *old(self),
            r == Step::Ready(lookup(map@, old(self).key)),
    {
        let probe = dashmap_try_get(&map.inner, &self.key);
        self.resume(probe)
    }

    /// The rest of an attempt, given what the probe of the key's shard
    /// found: ready with the value it found, or with `None` when it found
    /// the key absent; pending when the shard was locked.
    pub fn resume(&mut self, probe: Probe<Value>) -> (r: Step<Option<Value>>)
        ensures
            *final(self) == *old(self),
            r == match probe {
                Probe::Present(v) => Step::Ready(Some(v)),
                Probe::Absent => Step::Ready(None),
                Probe::Locked => Step::Pending,
            },
    {
        match probe {
            Probe::Present(v) => Step::Ready(Some(v)),
            Probe::Absent => Step::Ready(None),
            Probe::Locked => Step::Pending,
        }
    }
}

/// A pending lookup of `key` under the shard's write lock, the first half of
/// an in-place change. It hands back a copy of the stored value, not write
/// access to it: a write through a guard could not be related to the map's
/// entries, so nothing written to the copy reaches the map. The caller
/// writes the changed value back with an `InsertFuture`.
pub struct GetMutFuture {
    pub key: u64,
}

impl GetMutFuture {
    /// One attempt: the key's shard is locked for writing; the map is held
    /// exclusively, so the lock is always taken and the attempt is ready with
    /// the stored value (`None` when the key is absent). The map is not
    /// changed.
    pub fn poll(&mut self, map: &mut AsyncDashMap) -> (r: Step<Option<Value>>)
        ensures
            *final(self) == *old(self),
            final(map)@ == old(map)@,
            r == Step::Ready(lookup(old(map)@, old(self).key)),
    {
        let probe = dashmap_try_get_mut(&mut map.inner, &self.key);
        self.resume(probe)
    }

    /// The rest of an attempt, given what the probe of the key's shard
    /// found: ready with the value it found, or with `None` when it found
    /// the key absent; pending when the shard was locked.
    pub fn resume(&mut self, probe: Probe<Value>) -> (r: Step<Option<Value>>)
        ensures
            *final(self) == *old(self),
            r == match probe {
                Probe::Present(v) => Step::Ready(Some(v)),
                Probe::Absent => Step::Ready(None),
                Probe::Locked => Step::Pending,
            },
    {
        match probe {
            Probe::Present(v) => Step::Ready(Some(v)),
            Probe::Absent => Step::Ready(None),
            Probe::Locked => Step::Pending,
        }
    }
}

/// A pending insert of `key`; `value` is the value still to be stored, and
/// is taken when the insert completes.
pub struct InsertFuture {
    pub key: u64,
    pub value: Option<Value>,
}

impl InsertFuture {
    /// One attempt: the key's shard is locked for writing; the map is held
    /// exclusively, so the lock is always taken, `key` is mapped to the
    /// value, and the attempt is ready with the value it replaced (`None`
    /// when the key was vacant). Only a future that has not yet completed
    /// may be polled.
    pub fn poll(&mut self, map: &mut AsyncDashMap) -> (r: Step<Option<Value>>)
        requires
            old(self).value is Some,
        ensures
            final(self).key == old(self).key,
            final(self).value is None,
            final(map)@ == old(map)@.insert(old(self).key, old(self).value->0),
            r == Step::Ready(lookup(old(map)@, old(self).key)),
    {
        let shard_free = dashmap_try_entry(&mut map.inner, self.key);
        self.resume(map, shard_free)
    }

    /// The rest of an attempt, once it is known whether the key's shard
    /// could be locked: when it could, `key` is mapped to the value, which
    /// is taken, and the result is the value it replaced; when it could not,
    /// nothing changes and the attempt is pending.
    pub fn resume(&mut self, map: &mut AsyncDashMap, shard_free: bool) -> (r: Step<Option<Value>>)
        requires
            old(self).value is Some,
        ensures
            final(self).key == old(self).key,
            shard_free ==> {
                &&& r == Step::Ready(lookup(old(map)@, old(self).key))
                &&& final(map)@ == old(map)@.insert(old(self).key, old(self).value->0)
                &&& final(self).value is None
            },
            !shard_free ==> {
                &&& r == Step::<Option<Value>>::Pending
                &&& final(map)@ == old(map)@
                &&& final(self).value == old(self).value
            },
    {
        if shard_free {
            let value = self.value.take().unwrap();
            let prev = dashmap_insert(&mut map.inner, self.key, value);
            Step::Ready(prev)
        } else {
            Step::Pending
        }
    }
}

/// A pending removal of `key`.
pub struct RemoveFuture {
    pub key: u64,
}

impl RemoveFuture {
    /// One attempt: the key's shard is locked for writing; the map is held
    /// exclusively, so the lock is always taken, `key` is removed, and the
    /// attempt is ready with the value it had (`None` when it was vacant).
    pub fn poll(&mut self, map: &mut AsyncDashMap) -> (r: Step<Option<Value>>)
        ensures
            *final(self) == *old(self),
            final(map)@ == old(map)@.remove(old(self).key),
            r == Step::Ready(lookup(old(map)@, old(self).key)),
    {
        let shard_free = dashmap_try_entry(&mut map.inner, self.key);
        self.resume(map, shard_free)
    }

    /// The rest of an attempt, once it is known whether the key's shard
    /// could be locked: when it could, `key` is removed and the result is
    /// the value it had; when it could not, nothing changes and the attempt
    /// is pending.
    pub fn resume(&mut self, map: &mut AsyncDashMap, shard_free: bool) -> (r: Step<Option<Value>>)
        ensures
            *final(self) == *old(self),
            shard_free ==> {
                &&& r == Step::Ready(lookup(old(map)@, old(self).key))
                &&& final(map)@ == old(map)@.remove(old(self).key)
            },
            !shard_free ==> r == Step::<Option<Value>>::Pending && final(map)@ == old(map)@,
    {
        if shard_free {
            let prev = dashmap_remove(&mut map.inner, &self.key);
            Step::Ready(prev)
        } else {
            Step::Pending
        }
    }
}

/// A table kept in an `AsyncDashMap`. Each operation is one attempt at the
/// map's futures; since the table's shards are never locked by anyone else
/// (reads share the table, writes hold it exclusively), every attempt
/// completes, with the same effect and answer as on the other tables.
pub struct AsyncDashMapTable {
    map: AsyncDashMap,
}

impl View for AsyncDashMapTable {
    type V = Map<u64, Value>;

    open spec fn view(&self) -> Map<u64, Value> {
        self.map_view()
    }
}

impl AsyncDashMapTable {
    /// The entries of the table.
    pub closed spec fn map_view(&self) -> Map<u64, Value> {
        self.map@
    }

    /// An empty table presized for `capacity` entries, hashing with a
    /// freshly seeded hasher.
    pub fn with_capacity(capacity: usize) -> (t: Self)
        requires
            capacity <= MAX_CAPACITY,
        ensures
            t@ == empty_table(),
    {
        AsyncDashMapTable {
            map: AsyncDashMap::with_capacity_and_hasher(capacity, default_random_state()),
        }
    }

    /// Looks `key` up; ready with `true` when it is present. The attempt
    /// always completes.
    pub fn try_get(&self, key: &u64) -> (r: Step<bool>)
        ensures
            r == Step::Ready(found(self@, *key)),
    {
        let mut f = self.map.get(key);
        match f.poll(&self.map) {
            Step::Ready(v) => Step::Ready(v.is_some()),
            Step::Pending => Step::Pending,
        }
    }

    /// Reads the value stored for `key`; ready with `None` when it is
    /// absent. The attempt always completes.
    pub fn try_value(&self, key: &u64) -> (r: Step<Option<Value>>)
        ensures
            r == Step::Ready(lookup(self@, *key)),
    {
        let mut f = self.map.get(key);
        f.poll(&self.map)
    }

    /// Inserts `key` with the initial value, replacing any value it had;
    /// ready with `true` when the key was absent before. The table is held
    /// exclusively, so the attempt always completes.
    pub fn try_insert(&mut self, key: &u64) -> (r: Step<bool>)
        ensures
            final(self)@ == inserted(old(self)@, *key),
            r == Step::Ready(!found(old(self)@, *key)),
    {
        let mut f = self.map.insert(*key, 0);
        match f.poll(&mut self.map) {
            Step::Ready(prev) => Step::Ready(prev.is_none()),
            Step::Pending => Step::Pending,
        }
    }

    /// Removes `key`; ready with `true` when it was present. The table is
    /// held exclusively, so the attempt always completes.
    pub fn try_remove(&mut self, key: &u64) -> (r: Step<bool>)
        ensures
            final(self)@ == removed(old(self)@, *key),
            r == Step::Ready(found(old(self)@, *key)),
    {
        let mut f = self.map.remove(*key);
        match f.poll(&mut self.map) {
            Step::Ready(prev) => Step::Ready(prev.is_some()),
            Step::Pending => Step::Pending,
        }
    }

    /// Raises the value of `key` by one if it is present, never adding it;
    /// ready with `true` when it was present. The value is read under the
    /// shard's write lock and the raised value written back; the table is
    /// held exclusively, so the attempt always completes.
    pub fn try_update(&mut self, key: &u64) -> (r: Step<bool>)
        requires
            can_update(old(self)@, *key),
        ensures
            final(self)@ == updated(old(self)@, *key),
            r == Step::Ready(found(old(self)@, *key)),
    {
        let mut read = self.map.get_mut(key);
        match read.poll(&mut self.map) {
            Step::Ready(Some(v)) => {
                let mut write = self.map.insert(*key, v + 1);
                match write.poll(&mut self.map) {
                    Step::Ready(_) => Step::Ready(true),
                    Step::Pending => Step::Pending,
                }
            },
            Step::Ready(None) => Step::Ready(false),
            Step::Pending => Step::Pending,
        }
    }
}

} // verus!
