use object_pool::{Pool, PoolScaleMode, Poolable};

/// An item that counts its uses; `fresh` is set only by construction, and a
/// reset fails once `broken` is set.
struct Counter {
    uses: u32,
    fresh: bool,
    broken: bool,
    resets: u32,
}

impl Poolable<u32> for Counter {
    fn new(start: &u32) -> Counter {
        Counter { uses: *start, fresh: true, broken: false, resets: 0 }
    }

    fn reset(&mut self) -> bool {
        self.fresh = false;
        self.resets += 1;
        !self.broken
    }
}

#[test]
fn static_pool_serves_exactly_its_size_and_refills() {
    let mut pool: Pool<u32, Counter> = Pool::new(PoolScaleMode::Static { count: 4 }, 0);
    let mut held = Vec::new();
    for _ in 0..4 {
        held.push(pool.get().expect("item"));
    }
    assert!(pool.get().is_none());
    assert_eq!(pool.count(), 0);
    assert_eq!(pool.in_use(), 4);
    for guard in held {
        assert!(pool.release(guard));
    }
    assert_eq!(pool.count(), 4);
    assert_eq!(pool.capacity(), 4);
    let again = pool.get().expect("item after refill");
    assert_eq!(again.item().uses, 0);
    assert_eq!(again.item().resets, 1);
}

#[test]
fn static_pool_leaks_stay_lost() {
    let mut pool: Pool<u32, Counter> = Pool::new(PoolScaleMode::Static { count: 3 }, 0);
    for _ in 0..3 {
        let _leaked = pool.get().expect("item").into_inner();
    }
    for _ in 0..50 {
        assert!(pool.get().is_none());
    }
    assert_eq!(pool.capacity(), 3);
    assert_eq!(pool.count(), 0);
}

#[test]
fn empty_static_pool_has_nothing() {
    let mut pool: Pool<u32, Counter> = Pool::new(PoolScaleMode::Static { count: 0 }, 0);
    assert!(pool.get().is_none());
    assert_eq!(pool.capacity(), 0);
}

#[test]
fn reset_item_comes_back_not_rebuilt() {
    let mut pool: Pool<u32, Counter> = Pool::new(PoolScaleMode::Static { count: 2 }, 5);
    let mut guard = pool.get().expect("item");
    guard.item_mut().uses += 10;
    assert!(pool.release(guard));
    let again = pool.get().expect("item");
    assert_eq!(again.item().uses, 15);
    assert!(!again.item().fresh);
    assert_eq!(again.item().resets, 1);
}

#[test]
fn failed_reset_is_replaced_in_static_pool() {
    let mut pool: Pool<u32, Counter> = Pool::new(PoolScaleMode::Static { count: 1 }, 5);
    let mut guard = pool.get().expect("item");
    guard.item_mut().uses += 10;
    guard.item_mut().broken = true;
    assert!(!pool.release(guard));
    assert_eq!(pool.count(), 1);
    assert_eq!(pool.capacity(), 1);
    let again = pool.get().expect("replacement");
    assert!(again.item().fresh);
    assert_eq!(again.item().uses, 5);
}

#[test]
fn failed_reset_is_dropped_in_scaling_pool() {
    let mut pool: Pool<u32, Counter> =
        Pool::new(PoolScaleMode::AutoScale { maximum: Some(1), initial: 1, chunk_size: 1 }, 0);
    let mut guard = pool.get().expect("item");
    guard.item_mut().broken = true;
    assert!(!pool.readd_node(guard.into_inner()));
    assert_eq!(pool.count(), 0);
    assert_eq!(pool.capacity(), 1);
    assert!(pool.get().is_none());
}

#[test]
fn return_item_takes_reset_outcome() {
    let mut pool: Pool<u32, Counter> = Pool::new(PoolScaleMode::Static { count: 1 }, 2);
    let guard = pool.get().expect("item");
    let mut item = guard.into_inner();
    item.uses = 40;
    pool.return_item(item, true);
    assert_eq!(pool.get().expect("item").item().uses, 40);
}

#[test]
fn growth_stops_at_maximum() {
    let mut pool: Pool<u32, Counter> =
        Pool::new(PoolScaleMode::AutoScale { maximum: Some(7), initial: 0, chunk_size: 5 }, 0);
    let _a = pool.get().expect("first");
    assert_eq!(pool.capacity(), 5);
    assert_eq!(pool.count(), 4);
    for _ in 0..4 {
        let _b = pool.get().expect("from first chunk");
    }
    assert_eq!(pool.capacity(), 5);
    let _c = pool.get().expect("second chunk");
    assert_eq!(pool.capacity(), 7);
    let _d = pool.get().expect("last");
    assert!(pool.get().is_none());
    assert_eq!(pool.capacity(), 7);
}

#[test]
fn initial_above_maximum_does_not_grow() {
    let mut pool: Pool<u32, Counter> =
        Pool::new(PoolScaleMode::AutoScale { maximum: Some(2), initial: 3, chunk_size: 1 }, 0);
    assert_eq!(pool.capacity(), 3);
    for _ in 0..3 {
        let _g = pool.get().expect("initial item");
    }
    assert!(pool.get().is_none());
    assert_eq!(pool.capacity(), 3);
}

#[test]
fn doubling_from_initial_stock() {
    let mut pool: Pool<u32, Counter> =
        Pool::new(PoolScaleMode::AutoScale { maximum: None, initial: 3, chunk_size: 0 }, 0);
    for _ in 0..4 {
        let _g = pool.get().expect("item");
    }
    assert_eq!(pool.capacity(), 6);
    for _ in 0..3 {
        let _g = pool.get().expect("item");
    }
    assert_eq!(pool.capacity(), 12);
}

#[test]
fn growth_target_formula() {
    let doubling = PoolScaleMode::AutoScale { maximum: None, initial: 0, chunk_size: 0 };
    assert_eq!(doubling.growth_target(0), 1);
    assert_eq!(doubling.growth_target(8), 16);
    assert_eq!(doubling.growth_target(usize::MAX - 1), usize::MAX);
    let capped = PoolScaleMode::AutoScale { maximum: Some(10), initial: 0, chunk_size: 4 };
    assert_eq!(capped.growth_target(4), 8);
    assert_eq!(capped.growth_target(8), 10);
    assert_eq!(capped.growth_target(10), 10);
    assert_eq!(PoolScaleMode::Static { count: 3 }.growth_target(3), 3);
}

#[test]
fn context_and_mode_are_kept() {
    let pool: Pool<u32, Counter> = Pool::new(PoolScaleMode::Static { count: 2 }, 9);
    assert_eq!(*pool.context(), 9);
    assert!(matches!(pool.scale_mode(), PoolScaleMode::Static { count: 2 }));
}
