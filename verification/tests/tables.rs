use conc_map_bench::dashmap_backend::Probe;
use conc_map_bench::async_dashmap::{AsyncDashMap, AsyncDashMapTable};
use conc_map_bench::btree_table::BTreeMapTable;
use conc_map_bench::dashmap_table::DashMapTable;
use conc_map_bench::flurry_table::FlurryTable;
use conc_map_bench::model::{MAX_CAPACITY, Value};
use conc_map_bench::scc_table::SccMapTable;
use conc_map_bench::step::Step;

fn ready<T>(s: Step<T>) -> T {
    match s {
        Step::Ready(v) => v,
        Step::Pending => panic!("a table used by one thread reported a locked shard"),
    }
}

trait Table {
    fn with_capacity(capacity: usize) -> Self;
    fn get(&self, key: &u64) -> bool;
    fn value(&self, key: &u64) -> Option<Value>;
    fn insert(&mut self, key: &u64) -> bool;
    fn remove(&mut self, key: &u64) -> bool;
    fn update(&mut self, key: &u64) -> bool;
}

impl Table for BTreeMapTable {
    fn with_capacity(capacity: usize) -> Self {
        BTreeMapTable::with_capacity(capacity)
    }
    fn get(&self, key: &u64) -> bool {
        BTreeMapTable::get(self, key)
    }
    fn value(&self, key: &u64) -> Option<Value> {
        BTreeMapTable::value(self, key)
    }
    fn insert(&mut self, key: &u64) -> bool {
        BTreeMapTable::insert(self, key)
    }
    fn remove(&mut self, key: &u64) -> bool {
        BTreeMapTable::remove(self, key)
    }
    fn update(&mut self, key: &u64) -> bool {
        BTreeMapTable::update(self, key)
    }
}

impl Table for DashMapTable {
    fn with_capacity(capacity: usize) -> Self {
        DashMapTable::with_capacity(capacity)
    }
    fn get(&self, key: &u64) -> bool {
        DashMapTable::get(self, key)
    }
    fn value(&self, key: &u64) -> Option<Value> {
        DashMapTable::value(self, key)
    }
    fn insert(&mut self, key: &u64) -> bool {
        DashMapTable::insert(self, key)
    }
    fn remove(&mut self, key: &u64) -> bool {
        DashMapTable::remove(self, key)
    }
    fn update(&mut self, key: &u64) -> bool {
        DashMapTable::update(self, key)
    }
}

impl Table for FlurryTable {
    fn with_capacity(capacity: usize) -> Self {
        FlurryTable::with_capacity(capacity)
    }
    fn get(&self, key: &u64) -> bool {
        FlurryTable::get(self, key)
    }
    fn value(&self, key: &u64) -> Option<Value> {
        FlurryTable::value(self, key)
    }
    fn insert(&mut self, key: &u64) -> bool {
        FlurryTable::insert(self, key)
    }
    fn remove(&mut self, key: &u64) -> bool {
        FlurryTable::remove(self, key)
    }
    fn update(&mut self, key: &u64) -> bool {
        FlurryTable::update(self, key)
    }
}

impl Table for SccMapTable {
    fn with_capacity(capacity: usize) -> Self {
        SccMapTable::with_capacity(capacity)
    }
    fn get(&self, key: &u64) -> bool {
        SccMapTable::get(self, key)
    }
    fn value(&self, key: &u64) -> Option<Value> {
        SccMapTable::value(self, key)
    }
    fn insert(&mut self, key: &u64) -> bool {
        SccMapTable::insert(self, key)
    }
    fn remove(&mut self, key: &u64) -> bool {
        SccMapTable::remove(self, key)
    }
    fn update(&mut self, key: &u64) -> bool {
        SccMapTable::update(self, key)
    }
}

fn check_table_laws<T: Table>(insert_keeps: bool) {
    let mut t = T::with_capacity(16);
    let k: u64 = 42;
    let other: u64 = 7;
    // empty table
    assert!(!t.get(&k));
    assert_eq!(t.value(&k), None);
    // update of an absent key reports false and does not insert it
    assert!(!t.update(&k));
    assert!(!t.get(&k));
    // insert then lookup
    assert!(t.insert(&k));
    assert!(t.get(&k));
    assert_eq!(t.value(&k), Some(0));
    // second insert reports the key was present
    assert!(!t.insert(&k));
    // update raises the value by one
    assert!(t.update(&k));
    assert_eq!(t.value(&k), Some(1));
    assert!(t.update(&k));
    assert_eq!(t.value(&k), Some(2));
    // insert over a present key: reset, or kept
    assert!(!t.insert(&k));
    let expected: Value = if insert_keeps { 2 } else { 0 };
    assert_eq!(t.value(&k), Some(expected));
    // other keys untouched
    assert!(!t.get(&other));
    assert!(t.insert(&other));
    assert_eq!(t.value(&k), Some(expected));
    // remove then lookup
    assert!(t.remove(&k));
    assert!(!t.get(&k));
    assert_eq!(t.value(&k), None);
    assert!(!t.remove(&k));
    assert!(t.get(&other));
    assert_eq!(t.value(&other), Some(0));
    // remove undoes insert: the key can be inserted afresh
    assert!(t.insert(&k));
    assert_eq!(t.value(&k), Some(0));
}

#[test]
fn btree_table_laws() {
    check_table_laws::<BTreeMapTable>(false);
}

#[test]
fn dashmap_table_laws() {
    check_table_laws::<DashMapTable>(false);
}

#[test]
fn flurry_table_laws() {
    check_table_laws::<FlurryTable>(false);
}

#[test]
fn scc_table_laws() {
    check_table_laws::<SccMapTable>(true);
}

#[test]
fn async_dashmap_table_laws() {
    let mut t = AsyncDashMapTable::with_capacity(16);
    let k: u64 = 42;
    assert!(!ready(t.try_get(&k)));
    assert!(!ready(t.try_update(&k)));
    assert_eq!(ready(t.try_value(&k)), None);
    assert!(ready(t.try_insert(&k)));
    assert!(ready(t.try_get(&k)));
    assert_eq!(ready(t.try_value(&k)), Some(0));
    assert!(!ready(t.try_insert(&k)));
    assert!(ready(t.try_update(&k)));
    assert_eq!(ready(t.try_value(&k)), Some(1));
    assert!(!ready(t.try_insert(&k)));
    assert_eq!(ready(t.try_value(&k)), Some(0));
    assert!(ready(t.try_remove(&k)));
    assert!(!ready(t.try_get(&k)));
    assert!(!ready(t.try_remove(&k)));
}

#[test]
fn async_dashmap_futures() {
    let mut m = AsyncDashMap::new();
    let mut f = m.insert(3, 7);
    assert_eq!(f.value, Some(7));
    assert_eq!(ready(f.poll(&mut m)), None);
    assert_eq!(f.value, None);
    assert_eq!(ready(m.get(&3).poll(&m)), Some(7));
    assert_eq!(ready(m.entry(3).poll(&mut m)), Some(7));
    assert_eq!(ready(m.entry(4).poll(&mut m)), None);
    assert_eq!(ready(m.insert(3, 9).poll(&mut m)), Some(7));
    assert_eq!(ready(m.get(&3).poll(&m)), Some(9));
    // the write-locked lookup hands back the value and changes nothing
    assert_eq!(ready(m.get_mut(&3).poll(&mut m)), Some(9));
    assert_eq!(ready(m.get(&3).poll(&m)), Some(9));
    assert_eq!(ready(m.get_mut(&4).poll(&mut m)), None);
    assert_eq!(ready(m.get(&4).poll(&m)), None);
    assert_eq!(ready(m.insert(3, 10).poll(&mut m)), Some(9));
    assert_eq!(ready(m.remove(3).poll(&mut m)), Some(10));
    assert_eq!(ready(m.remove(3).poll(&mut m)), None);
    assert_eq!(ready(m.get(&3).poll(&m)), None);
}

#[test]
fn async_dashmap_constructors_are_empty() {
    let maps = vec![
        AsyncDashMap::new(),
        AsyncDashMap::default(),
        AsyncDashMap::with_capacity(100),
        AsyncDashMap::with_hasher(std::collections::hash_map::RandomState::new()),
        AsyncDashMap::with_capacity_and_hasher(100, std::collections::hash_map::RandomState::new()),
    ];
    for m in maps.iter() {
        assert_eq!(ready(m.get(&0).poll(m)), None);
    }
}

#[test]
fn tables_accept_zero_and_largest_capacity_and_extreme_keys() {
    let mut b = BTreeMapTable::with_capacity(0);
    let mut d = DashMapTable::with_capacity(0);
    let mut f = FlurryTable::with_capacity(0);
    let mut s = SccMapTable::with_capacity(0);
    for key in [0u64, u64::MAX] {
        assert!(b.insert(&key));
        assert!(d.insert(&key));
        assert!(f.insert(&key));
        assert!(s.insert(&key));
        assert!(b.get(&key) && d.get(&key) && f.get(&key) && s.get(&key));
    }
    assert_eq!(MAX_CAPACITY, usize::MAX / 64);
    let large = DashMapTable::with_capacity(1 << 20);
    assert!(!large.get(&1));
}

#[test]
fn tables_agree_on_one_operation_sequence() {
    let mut b = BTreeMapTable::with_capacity(8);
    let mut d = DashMapTable::with_capacity(8);
    let mut f = FlurryTable::with_capacity(8);
    let mut s = SccMapTable::with_capacity(8);
    let mut a = AsyncDashMapTable::with_capacity(8);
    for i in 0u64..200 {
        let key = (i * 7919) % 13;
        let op = i % 4;
        let results = match op {
            0 => [b.get(&key), d.get(&key), f.get(&key), s.get(&key), ready(a.try_get(&key))],
            1 => [
                b.insert(&key),
                d.insert(&key),
                f.insert(&key),
                s.insert(&key),
                ready(a.try_insert(&key)),
            ],
            2 => [
                b.remove(&key),
                d.remove(&key),
                f.remove(&key),
                s.remove(&key),
                ready(a.try_remove(&key)),
            ],
            _ => [
                b.update(&key),
                d.update(&key),
                f.update(&key),
                s.update(&key),
                ready(a.try_update(&key)),
            ],
        };
        for r in results.iter() {
            assert_eq!(*r, results[0], "operation {} on key {}", op, key);
        }
    }
}

#[test]
fn async_dashmap_write_back_restores() {
    let mut m = AsyncDashMap::new();
    assert_eq!(ready(m.insert(1, 5).poll(&mut m)), None);
    assert_eq!(ready(m.insert(2, 6).poll(&mut m)), None);
    let replaced = ready(m.insert(1, 9).poll(&mut m));
    assert_eq!(replaced, Some(5));
    assert_eq!(ready(m.insert(1, replaced.unwrap()).poll(&mut m)), Some(9));
    assert_eq!(ready(m.get(&1).poll(&m)), Some(5));
    let taken = ready(m.remove(2).poll(&mut m));
    assert_eq!(taken, Some(6));
    assert_eq!(ready(m.insert(2, taken.unwrap()).poll(&mut m)), None);
    assert_eq!(ready(m.get(&2).poll(&m)), Some(6));
}

#[test]
fn async_dashmap_resume_follows_the_probe() {
    let mut m = AsyncDashMap::new();
    // a locked shard: every attempt is pending and changes nothing
    let mut ins = m.insert(1, 4);
    assert!(matches!(ins.resume(&mut m, false), Step::Pending));
    assert_eq!(ins.value, Some(4));
    assert_eq!(ready(m.get(&1).poll(&m)), None);
    assert!(matches!(m.get(&1).resume(Probe::Locked), Step::Pending));
    assert!(matches!(m.entry(1).resume(&m, false), Step::Pending));
    assert!(matches!(m.remove(1).resume(&mut m, false), Step::Pending));
    assert!(matches!(m.get_mut(&1).resume(Probe::Locked), Step::Pending));
    // a free shard: the attempt completes
    assert_eq!(ready(ins.resume(&mut m, true)), None);
    assert_eq!(ins.value, None);
    assert_eq!(ready(m.get(&1).resume(Probe::Present(4))), Some(4));
    assert_eq!(ready(m.get(&2).resume(Probe::Absent)), None);
    assert_eq!(ready(m.entry(1).resume(&m, true)), Some(4));
    assert_eq!(ready(m.get_mut(&1).resume(Probe::Present(4))), Some(4));
    assert_eq!(ready(m.get_mut(&2).resume(Probe::Absent)), None);
    assert_eq!(ready(m.get(&1).poll(&m)), Some(4));
    assert_eq!(ready(m.remove(1).resume(&mut m, true)), Some(4));
    assert_eq!(ready(m.get(&1).poll(&m)), None);
}
