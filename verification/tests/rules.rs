use std::collections::{BTreeMap, BTreeSet, HashMap, HashSet, VecDeque};
use swimmer::{builder, Pool, PoolBuilder, Recyclable, Store};

#[test]
fn size_after_build_is_starting_size() {
    for n in [0usize, 1, 2, 7, 64, 1000] {
        let pool: Pool<String> = builder().with_starting_size(n).build();
        assert_eq!(pool.size(), n);
        let pool: Pool<Vec<u8>> = Pool::with_size(n);
        assert_eq!(pool.size(), n);
    }
}

#[test]
fn new_pool_is_empty() {
    let pool: Pool<String> = Pool::new();
    assert_eq!(pool.size(), 0);
    let pool: Pool<String> = Pool::default();
    assert_eq!(pool.size(), 0);
    let pool: Pool<String> = PoolBuilder::default().build();
    assert_eq!(pool.size(), 0);
}

#[test]
fn acquire_then_release_keeps_size() {
    let pool: Pool<String> = Pool::with_size(3);
    for _ in 0..10 {
        let before = pool.size();
        let value = pool.get();
        assert_eq!(pool.size(), before - 1);
        value.release();
        assert_eq!(pool.size(), before);
    }
    assert_eq!(pool.size(), 3);
}

#[test]
fn acquire_from_empty_pool_constructs_and_release_stores() {
    let pool: Pool<String> = Pool::new();
    assert_eq!(pool.size(), 0);
    let value = pool.get();
    assert_eq!(*value, "");
    assert_eq!(pool.size(), 0);
    value.release();
    assert_eq!(pool.size(), 1);
    let value = pool.get();
    assert_eq!(pool.size(), 0);
    value.release();
    assert_eq!(pool.size(), 1);
}

#[test]
fn released_object_is_reset_before_reuse() {
    let pool: Pool<String> = Pool::with_size(1);
    let mut value = pool.get();
    value.push_str("test");
    assert_eq!(*value, "test");
    value.release();
    let again = pool.get();
    assert_eq!(*again, "");
}

#[test]
fn reset_keeps_what_was_allocated() {
    let pool: Pool<Vec<u32>> = Pool::new();
    let mut value = pool.get();
    for i in 0..100 {
        value.push(i);
    }
    let grown = value.capacity();
    assert!(grown >= 100);
    value.release();
    let again = pool.get();
    assert!(again.is_empty());
    assert_eq!(again.capacity(), grown);
}

#[test]
fn supplier_makes_what_default_construction_would_not() {
    let pool = builder::<Vec<u32>>()
        .with_supplier(|| Vec::with_capacity(128))
        .build();
    let value = pool.get();
    assert_eq!(value.capacity(), 128);
    assert_eq!(*value, Vec::<u32>::new());

    let plain: Pool<Vec<u32>> = Pool::new();
    assert_eq!(plain.get().capacity(), 0);
}

#[test]
fn supplier_fills_the_starting_size() {
    let pool = builder::<String>()
        .with_starting_size(4)
        .with_supplier(|| String::from("test"))
        .build();
    assert_eq!(pool.size(), 4);
    for left in [3usize, 2, 1, 0] {
        assert_eq!(pool.detached(), "test");
        assert_eq!(pool.size(), left);
    }
    assert_eq!(pool.detached(), "test");
    assert_eq!(pool.size(), 0);
}

#[test]
fn supplier_is_not_used_for_reset() {
    let pool = builder::<String>()
        .with_supplier(|| String::from("test"))
        .build();
    let value = pool.get();
    assert_eq!(*value, "test");
    value.release();
    let again = pool.get();
    assert_eq!(*again, "");
}

#[test]
fn with_starting_size_keeps_the_supplier() {
    let pool = builder::<String>()
        .with_supplier(|| String::from("made"))
        .with_starting_size(2)
        .build();
    assert_eq!(pool.size(), 2);
    assert_eq!(*pool.get(), "made");
}

#[test]
fn build_with_items_only() {
    let items = vec!["a".to_string(), "b".to_string(), "c".to_string()];
    let pool = builder().build_with(items);
    assert_eq!(pool.size(), 3);
    assert_eq!(pool.detached(), "c");
    assert_eq!(pool.detached(), "b");
    assert_eq!(pool.detached(), "a");
    assert_eq!(pool.size(), 0);
    assert_eq!(pool.detached(), "");
}

#[test]
fn build_with_items_topped_up() {
    let items = vec!["a".to_string(), "b".to_string(), "c".to_string()];
    let pool = builder().with_starting_size(5).build_with(items);
    assert_eq!(pool.size(), 5);
    assert_eq!(pool.detached(), "");
    assert_eq!(pool.detached(), "");
    assert_eq!(pool.detached(), "c");
    assert_eq!(pool.size(), 2);
}

#[test]
fn build_with_more_items_than_starting_size() {
    let items = vec![1u32, 2, 3, 4];
    let pool = builder().with_starting_size(2).build_with(items);
    assert_eq!(pool.size(), 4);
    assert_eq!(pool.detached(), 4);
}

#[test]
fn build_with_as_many_items_as_starting_size() {
    let items = vec![1u32, 2];
    let pool = builder().with_starting_size(2).build_with(items);
    assert_eq!(pool.size(), 2);
    assert_eq!(pool.detached(), 2);
    assert_eq!(pool.detached(), 1);
    assert_eq!(pool.detached(), 0);
}

#[test]
fn detached_object_never_comes_back() {
    let pool = builder().build_with(vec![7u64, 8, 9]);
    let detached = pool.detached();
    assert_eq!(detached, 9);
    assert_eq!(pool.size(), 2);
    drop(detached);
    assert_eq!(pool.size(), 2);
    for _ in 0..5 {
        let a = pool.get();
        let b = pool.get();
        assert_ne!(*a, 9);
        assert_ne!(*b, 9);
        b.release();
        a.release();
        assert_eq!(pool.size(), 2);
    }
}

#[test]
fn detached_from_empty_pool_is_new() {
    let pool: Pool<u32> = Pool::new();
    assert_eq!(pool.detached(), 0);
    assert_eq!(pool.size(), 0);
}

#[test]
fn attach_changes_size_on_release_only() {
    let pool: Pool<u64> = Pool::with_size(0);
    assert_eq!(pool.size(), 0);

    let ten = pool.attach(10);
    assert_eq!(*ten, 10);
    assert_eq!(pool.size(), 0);

    ten.release();
    assert_eq!(pool.size(), 1);
    assert_eq!(pool.detached(), 0);
}

#[test]
fn unreleased_handle_takes_its_object_along() {
    let pool: Pool<String> = Pool::with_size(2);
    let value = pool.get();
    assert_eq!(pool.size(), 1);
    drop(value);
    assert_eq!(pool.size(), 1);
}

#[test]
fn objects_come_back_last_in_first_out() {
    let pool: Pool<String> = Pool::new();
    let first = pool.attach(String::with_capacity(16));
    let second = pool.attach(String::with_capacity(64));
    first.release();
    second.release();
    assert_eq!(pool.size(), 2);
    assert_eq!(pool.get().capacity(), 64);
    assert_eq!(pool.size(), 1);
}

#[test]
fn handle_reads_and_writes_through() {
    let pool: Pool<Vec<u8>> = Pool::new();
    let mut value = pool.get();
    value.push(1);
    value.as_mut().push(2);
    assert_eq!(value.as_ref(), &vec![1u8, 2]);
    assert_eq!(value.len(), 2);
    assert!(value == vec![1u8, 2]);
    assert!(value != vec![1u8]);
    assert!(value > vec![1u8, 1]);
    assert!(value < vec![2u8]);
    assert_eq!(value.partial_cmp(&vec![1u8, 2]), Some(std::cmp::Ordering::Equal));
}

#[test]
fn store_stock_acquire_release() {
    let settings = builder::<String>().with_starting_size(2);
    let mut store = Store::stock(&settings, vec!["x".to_string()]);
    assert_eq!(store.len(), 2);
    assert_eq!(store.acquire(&settings), "");
    assert_eq!(store.len(), 1);
    assert_eq!(store.acquire(&settings), "x");
    assert_eq!(store.len(), 0);
    assert_eq!(store.acquire(&settings), "");
    assert_eq!(store.len(), 0);
    store.release("used".to_string());
    assert_eq!(store.len(), 1);
    assert_eq!(store.acquire(&settings), "");
    assert_eq!(store.len(), 0);
}

#[test]
fn store_new_is_empty() {
    let store: Store<u8> = Store::new();
    assert_eq!(store.len(), 0);
}

#[test]
fn settings_report_and_construct() {
    let settings = builder::<u32>();
    assert_eq!(settings.starting_size(), 0);
    assert_eq!(settings.create(), 0);
    let settings = settings.with_starting_size(9).with_supplier(|| 5);
    assert_eq!(settings.starting_size(), 9);
    assert_eq!(settings.create(), 5);
}

fn new_then_recycle<T: Recyclable>(fill: impl Fn(&mut T)) -> (T, T) {
    let fresh = T::new();
    let mut used = T::new();
    fill(&mut used);
    used.recycle();
    (fresh, used)
}

#[test]
fn string_and_sequences_are_reset() {
    let (fresh, used) = new_then_recycle::<String>(|s| s.push_str("abc"));
    assert_eq!(fresh, "");
    assert_eq!(used, "");
    let (fresh, used) = new_then_recycle::<Vec<i32>>(|v| v.push(3));
    assert!(fresh.is_empty());
    assert!(used.is_empty());
    let (fresh, used) = new_then_recycle::<VecDeque<i32>>(|v| v.push_back(3));
    assert!(fresh.is_empty());
    assert!(used.is_empty());
}

#[test]
fn maps_and_sets_are_reset() {
    let (fresh, used) = new_then_recycle::<HashMap<u8, u8>>(|m| {
        m.insert(1, 2);
    });
    assert!(fresh.is_empty());
    assert!(used.is_empty());
    let (fresh, used) = new_then_recycle::<HashSet<u8>>(|m| {
        m.insert(1);
    });
    assert!(fresh.is_empty());
    assert!(used.is_empty());
    let (fresh, used) = new_then_recycle::<BTreeMap<u8, u8>>(|m| {
        m.insert(1, 2);
    });
    assert!(fresh.is_empty());
    assert!(used.is_empty());
    let (fresh, used) = new_then_recycle::<BTreeSet<u8>>(|m| {
        m.insert(1);
    });
    assert!(fresh.is_empty());
    assert!(used.is_empty());
}

#[test]
fn integers_are_reset_to_zero() {
    assert_eq!(new_then_recycle::<u8>(|n| *n = 9), (0, 0));
    assert_eq!(new_then_recycle::<u16>(|n| *n = 9), (0, 0));
    assert_eq!(new_then_recycle::<u32>(|n| *n = 9), (0, 0));
    assert_eq!(new_then_recycle::<u64>(|n| *n = 9), (0, 0));
    assert_eq!(new_then_recycle::<i8>(|n| *n = -9), (0, 0));
    assert_eq!(new_then_recycle::<i16>(|n| *n = -9), (0, 0));
    assert_eq!(new_then_recycle::<i32>(|n| *n = -9), (0, 0));
    assert_eq!(new_then_recycle::<i64>(|n| *n = -9), (0, 0));
}

struct Counted {
    dropped: std::sync::Arc<std::sync::atomic::AtomicUsize>,
    uses: u32,
}

impl Recyclable for Counted {
    fn new() -> Self {
        Counted {
            dropped: std::sync::Arc::new(std::sync::atomic::AtomicUsize::new(0)),
            uses: 0,
        }
    }

    fn recycle(&mut self) {
        self.uses = 0;
    }
}

impl Drop for Counted {
    fn drop(&mut self) {
        self.dropped
            .fetch_add(1, std::sync::atomic::Ordering::SeqCst);
    }
}

#[test]
fn dropping_the_pool_drops_its_spare_objects() {
    let dropped = std::sync::Arc::new(std::sync::atomic::AtomicUsize::new(0));
    let counter = dropped.clone();
    let pool = builder::<Counted>()
        .with_starting_size(3)
        .with_supplier(move || Counted {
            dropped: counter.clone(),
            uses: 0,
        })
        .build();
    assert_eq!(pool.size(), 3);

    let mut held = pool.get();
    held.uses = 5;
    let detached = pool.detached();
    assert_eq!(pool.size(), 1);
    held.release();
    assert_eq!(pool.size(), 2);
    assert_eq!(pool.get().uses, 0);
    assert_eq!(dropped.load(std::sync::atomic::Ordering::SeqCst), 1);

    drop(pool);
    assert_eq!(dropped.load(std::sync::atomic::Ordering::SeqCst), 2);
    drop(detached);
    assert_eq!(dropped.load(std::sync::atomic::Ordering::SeqCst), 3);
}

#[test]
fn two_pools_keep_their_objects_apart() {
    let ones = builder::<u32>().with_starting_size(2).with_supplier(|| 1).build();
    let twos = builder::<u32>().with_starting_size(3).with_supplier(|| 2).build();
    assert_eq!(ones.size(), 2);
    assert_eq!(twos.size(), 3);
    assert_eq!(ones.detached(), 1);
    assert_eq!(twos.detached(), 2);
    assert_eq!(ones.size(), 1);
    assert_eq!(twos.size(), 2);

    let handle = twos.attach(9);
    handle.release();
    assert_eq!(ones.size(), 1);
    assert_eq!(twos.size(), 3);
    assert_eq!(twos.detached(), 0);
    assert_eq!(ones.detached(), 1);
    assert_eq!(ones.detached(), 1);
}

fn stocked() -> Pool<String> {
    let pool = builder().with_starting_size(2).build_with(vec!["kept".to_string()]);
    assert_eq!(pool.size(), 2);
    pool
}

#[test]
fn pool_keeps_its_objects_when_moved() {
    let pool = stocked();
    assert_eq!(pool.size(), 2);
    let boxed = Box::new(pool);
    assert_eq!(boxed.size(), 2);
    assert_eq!(boxed.detached(), "");
    assert_eq!(boxed.detached(), "kept");
    let value = boxed.get();
    value.release();
    assert_eq!(boxed.size(), 1);
}
