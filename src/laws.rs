use vstd::prelude::*;

use crate::pool::{Pool, PoolGuard, Poolable};
use crate::scale::{PoolScaleMode, Tally};

verus! {

/// `n` is a power of two.
pub open spec fn is_power_of_two(n: nat) -> bool
    decreases n,
{
    if n <= 1 {
        n == 1
    } else {
        n % 2 == 0 && is_power_of_two(n / 2)
    }
}

proof fn lemma_take_idle(t: Tally, mode: PoolScaleMode, k: nat)
    requires
        k <= t.idle,
    ensures
        t.acquire_many(mode, k) == (Tally { idle: (t.idle - k) as nat, in_use: t.in_use + k, capacity: t.capacity }),
    decreases k,
{
    if k > 0 {
        lemma_take_idle(t.after_acquire(mode), mode, (k - 1) as nat);
    }
}

proof fn lemma_give_back(t: Tally, mode: PoolScaleMode, k: nat, valid: bool)
    requires
        k <= t.in_use,
        mode.is_static(),
    ensures
        t.release_many(mode, k, valid) == (Tally { idle: t.idle + k, in_use: (t.in_use - k) as nat, capacity: t.capacity }),
    decreases k,
{
    if k > 0 {
        lemma_give_back(t.release(mode, valid), mode, (k - 1) as nat, valid);
    }
}

proof fn lemma_refused_stays(t: Tally, mode: PoolScaleMode, k: nat)
    requires
        t.acquire(mode) is None,
    ensures
        t.acquire_many(mode, k) == t,
    decreases k,
{
    if k > 0 {
        lemma_refused_stays(t, mode, (k - 1) as nat);
    }
}

/// In a static pool of `count` items, each of the first `count` requests
/// whose items are kept is served.
pub proof fn static_pool_serves_each_item(count: usize, k: nat)
    requires
        k < count,
    ensures
        ({
            let mode = PoolScaleMode::Static { count };
            Tally::fresh(mode).acquire_many(mode, k).acquire(mode) is Some
        }),
{
    let mode = PoolScaleMode::Static { count };
    lemma_take_idle(Tally::fresh(mode), mode, k);
}

/// A static pool of `count` items whose items have all been taken and kept
/// refuses every later request, and stays as it is; once all `count` items
/// come back, whatever their resets say, it is as it was when created.
pub proof fn static_pool_drained(count: usize, later: nat, valid: bool)
    ensures
        ({
            let mode = PoolScaleMode::Static { count };
            let drained = Tally::fresh(mode).acquire_many(mode, count as nat);
            &&& drained.acquire(mode) is None
            &&& drained.acquire_many(mode, later) == drained
            &&& drained.release_many(mode, count as nat, valid) == Tally::fresh(mode)
        }),
{
    let mode = PoolScaleMode::Static { count };
    let fresh = Tally::fresh(mode);
    lemma_take_idle(fresh, mode, count as nat);
    let drained = fresh.acquire_many(mode, count as nat);
    lemma_refused_stays(drained, mode, later);
    lemma_give_back(drained, mode, count as nat, valid);
}

proof fn lemma_grow_by_one(t: Tally, k: nat)
    requires
        t.idle == 0,
        t.in_use == t.capacity,
        t.capacity + k <= usize::MAX,
    ensures
        ({
            let mode = PoolScaleMode::AutoScale { maximum: None, initial: 0, chunk_size: 1 };
            t.acquire_many(mode, k) == (Tally { idle: 0, in_use: t.in_use + k, capacity: t.capacity + k })
        }),
    decreases k,
{
    let mode = PoolScaleMode::AutoScale { maximum: None, initial: 0, chunk_size: 1 };
    if k > 0 {
        lemma_grow_by_one(t.after_acquire(mode), (k - 1) as nat);
    }
}

/// A scaling pool that starts empty and grows one item at a time, with no
/// maximum, has built exactly `k` items after `k` requests whose items are kept.
pub proof fn unit_chunks_build_one_per_request(k: nat)
    requires
        k <= usize::MAX,
    ensures
        ({
            let mode = PoolScaleMode::AutoScale { maximum: None, initial: 0, chunk_size: 1 };
            Tally::fresh(mode).acquire_many(mode, k) == (Tally { idle: 0, in_use: k, capacity: k })
        }),
{
    let mode = PoolScaleMode::AutoScale { maximum: None, initial: 0, chunk_size: 1 };
    lemma_grow_by_one(Tally::fresh(mode), k);
}

spec fn doubling_shape(t: Tally) -> bool {
    &&& t.idle + t.in_use == t.capacity
    &&& t.in_use == 0 ==> t.capacity == 0
    &&& t.in_use > 0 ==> is_power_of_two(t.capacity) && t.capacity < 2 * t.in_use
}

proof fn lemma_doubling_step(t: Tally)
    requires
        doubling_shape(t),
        2 * t.in_use < usize::MAX,
    ensures
        ({
            let mode = PoolScaleMode::AutoScale { maximum: None, initial: 0, chunk_size: 0 };
            &&& doubling_shape(t.after_acquire(mode))
            &&& t.after_acquire(mode).in_use == t.in_use + 1
        }),
{
    let u = t.in_use;
    if t.idle == 0 && u > 0 {
        assert((2 * u) / 2 == u);
        assert((2 * u) % 2 == 0);
        assert(is_power_of_two(2 * u));
    }
}

proof fn lemma_doubling_run(t: Tally, k: nat)
    requires
        doubling_shape(t),
        2 * (t.in_use + k) <= usize::MAX,
    ensures
        ({
            let mode = PoolScaleMode::AutoScale { maximum: None, initial: 0, chunk_size: 0 };
            &&& doubling_shape(t.acquire_many(mode, k))
            &&& t.acquire_many(mode, k).in_use == t.in_use + k
        }),
    decreases k,
{
    let mode = PoolScaleMode::AutoScale { maximum: None, initial: 0, chunk_size: 0 };
    if k > 0 {
        lemma_doubling_step(t);
        lemma_doubling_run(t.after_acquire(mode), (k - 1) as nat);
    }
}

/// A doubling pool that starts empty, with no maximum, has built after `k`
/// requests whose items are kept the least power of two that is at least `k`:
/// one that is at least `k` and under `2 * k`.
pub proof fn doubling_builds_next_power_of_two(k: nat)
    requires
        0 < k,
        2 * k <= usize::MAX,
    ensures
        ({
            let mode = PoolScaleMode::AutoScale { maximum: None, initial: 0, chunk_size: 0 };
            let t = Tally::fresh(mode).acquire_many(mode, k);
            &&& t.in_use == k
            &&& is_power_of_two(t.capacity)
            &&& k <= t.capacity < 2 * k
        }),
{
    let mode = PoolScaleMode::AutoScale { maximum: None, initial: 0, chunk_size: 0 };
    lemma_doubling_run(Tally::fresh(mode), k);
}

spec fn capped_shape(t: Tally, maximum: nat) -> bool {
    &&& t.idle + t.in_use == t.capacity
    &&& t.capacity <= maximum
}

proof fn lemma_capped_step(t: Tally, maximum: usize, initial: usize, chunk_size: usize)
    requires
        capped_shape(t, maximum as nat),
    ensures
        ({
            let mode = PoolScaleMode::AutoScale { maximum: Some(maximum), initial, chunk_size };
            &&& capped_shape(t.after_acquire(mode), maximum as nat)
            &&& t.in_use < maximum ==> t.acquire(mode) is Some && t.after_acquire(mode).in_use == t.in_use + 1
            &&& t.in_use == maximum ==> t.acquire(mode) is None
        }),
{
}

proof fn lemma_capped_run(t: Tally, maximum: usize, initial: usize, chunk_size: usize, k: nat)
    requires
        capped_shape(t, maximum as nat),
        t.in_use + k <= maximum,
    ensures
        ({
            let mode = PoolScaleMode::AutoScale { maximum: Some(maximum), initial, chunk_size };
            &&& capped_shape(t.acquire_many(mode, k), maximum as nat)
            &&& t.acquire_many(mode, k).in_use == t.in_use + k
        }),
    decreases k,
{
    let mode = PoolScaleMode::AutoScale { maximum: Some(maximum), initial, chunk_size };
    if k > 0 {
        lemma_capped_step(t, maximum, initial, chunk_size);
        lemma_capped_run(t.after_acquire(mode), maximum, initial, chunk_size, (k - 1) as nat);
    }
}

/// A scaling pool with a maximum of `maximum` items (and no more to start
/// with) serves `maximum` requests whose items are kept, refuses the next one,
/// and never builds more than `maximum` items on the way.
pub proof fn capped_pool_serves_up_to_maximum(maximum: usize, initial: usize, chunk_size: usize, k: nat)
    requires
        initial <= maximum,
        k <= maximum,
    ensures
        ({
            let mode = PoolScaleMode::AutoScale { maximum: Some(maximum), initial, chunk_size };
            let t = Tally::fresh(mode).acquire_many(mode, k);
            &&& t.capacity <= maximum
            &&& k < maximum ==> t.acquire(mode) is Some
            &&& k == maximum ==> t.acquire(mode) is None
        }),
{
    let mode = PoolScaleMode::AutoScale { maximum: Some(maximum), initial, chunk_size };
    lemma_capped_run(Tally::fresh(mode), maximum, initial, chunk_size, k);
    lemma_capped_step(Tally::fresh(mode).acquire_many(mode, k), maximum, initial, chunk_size);
}

/// An item handed back with a successful reset is the next one handed out:
/// the pool keeps the very item its reset cleaned, not a new one.
pub proof fn returned_item_is_next_out<C, T: Poolable<C>>(
    start: Pool<C, T>,
    back: Pool<C, T>,
    after: Pool<C, T>,
    item: T,
    r: Option<PoolGuard<T>>,
)
    requires
        Pool::returned(start, back, item, true),
        Pool::acquired(back, after, r),
    ensures
        r is Some,
        r->0.value() == item,
        after.idle() == start.idle(),
{
}

/// An item handed back with a failed reset is not kept by a scaling pool:
/// the idle items stay as they were.
pub proof fn failed_item_is_dropped<C, T: Poolable<C>>(start: Pool<C, T>, back: Pool<C, T>, item: T)
    requires
        Pool::returned(start, back, item, false),
        !start.mode().is_static(),
    ensures
        back.idle() == start.idle(),
        back.built() == start.built(),
{
}

} // verus!
