use vstd::prelude::*;

use crate::scale::{PoolScaleMode, Tally};

verus! {

/// What a pooled item must offer: how to build one from the pool's shared
/// context, and how to bring a used one back to a clean state.
pub trait Poolable<C>: Sized {
    /// Builds a fresh item.
    fn new(context: &C) -> Self;

    /// Cleans the item in place for its next holder; `false` when the item can
    /// no longer be trusted and must be discarded.
    fn reset(&mut self) -> bool;
}

/// A checked-out item. It owns the item until it is handed back to the pool
/// with `Pool::release`; a guard that is never handed back takes its item out
/// of circulation for good.
pub struct PoolGuard<T> {
    item: T,
}

impl<T> PoolGuard<T> {
    /// The item held.
    pub closed spec fn value(&self) -> T {
        self.item
    }

    pub fn item(&self) -> (r: &T)
        ensures
            *r == self.value(),
    {
        &self.item
    }

    pub fn item_mut(&mut self) -> (r: &mut T)
        ensures
            *r == old(self).value(),
            final(self).value() == *final(r),
    {
        &mut self.item
    }

    /// Takes the item out of the guard, which then never returns to a pool.
    pub fn into_inner(self) -> (r: T)
        ensures
            r == self.value(),
    {
        self.item
    }
}

/// A stock of reusable items of type `T`, built from a context of type `C`.
/// Idle items form a stack: the item returned last is handed out first.
pub struct Pool<C, T> {
    scale_mode: PoolScaleMode,
    items: Vec<T>,
    in_use: usize,
    capacity: usize,
    context: C,
}

impl<C, T: Poolable<C>> Pool<C, T> {
    /// The scaling policy the pool was made with.
    pub closed spec fn mode(&self) -> PoolScaleMode {
        self.scale_mode
    }

    /// The idle items, the next one to be handed out last.
    pub closed spec fn idle(&self) -> Seq<T> {
        self.items@
    }

    /// Items handed out and not returned.
    pub closed spec fn checked_out(&self) -> nat {
        self.in_use as nat
    }

    /// Items ever built.
    pub closed spec fn built(&self) -> nat {
        self.capacity as nat
    }

    pub closed spec fn shared_context(&self) -> C {
        self.context
    }

    pub open spec fn tally(&self) -> Tally {
        Tally { idle: self.idle().len(), in_use: self.checked_out(), capacity: self.built() }
    }

    /// Every item built is idle, checked out or discarded; a static pool
    /// discards none; and the capacity stays within the policy's bound.
    pub open spec fn wf(&self) -> bool {
        &&& self.idle().len() + self.checked_out() <= self.built()
        &&& self.mode().is_static() ==> self.idle().len() + self.checked_out() == self.built()
        &&& self.built() <= self.mode().capacity_bound()
    }

    /// One request for an item, taking the pool from `pre` to `post` and
    /// answering `r`. When the pool is dry and may grow, the new items are
    /// built first and one of them is handed out.
    pub open spec fn acquired(pre: Self, post: Self, r: Option<PoolGuard<T>>) -> bool {
        &&& post.mode() == pre.mode()
        &&& post.shared_context() == pre.shared_context()
        &&& match pre.tally().acquire(pre.mode()) {
            None => r is None && post == pre,
            Some(t) => {
                &&& r is Some
                &&& post.tally() == t
                &&& pre.idle().len() > 0 ==> {
                    &&& r->0.value() == pre.idle().last()
                    &&& post.idle() == pre.idle().drop_last()
                }
            },
        }
    }

    /// An item coming back to the pool, taking it from `pre` to `post`;
    /// `valid` is the outcome of the item's reset. A valid item goes back on
    /// top of the idle stack. An invalid one is discarded; a static pool
    /// builds a replacement in its place.
    pub open spec fn returned(pre: Self, post: Self, item: T, valid: bool) -> bool {
        &&& post.mode() == pre.mode()
        &&& post.shared_context() == pre.shared_context()
        &&& post.built() == pre.built()
        &&& post.checked_out() == pre.checked_out() - 1
        &&& if valid {
            post.idle() == pre.idle().push(item)
        } else if pre.mode().is_static() {
            &&& post.idle().len() == pre.idle().len() + 1
            &&& post.idle().drop_last() == pre.idle()
        } else {
            post.idle() == pre.idle()
        }
    }

    /// Creates a pool and builds its initial stock of items.
    pub fn new(scale_mode: PoolScaleMode, context: C) -> (r: Self)
        ensures
            r.wf(),
            r.mode() == scale_mode,
            r.shared_context() == context,
            r.tally() == Tally::fresh(scale_mode),
    {
        let mut pool = Pool { scale_mode, items: Vec::new(), in_use: 0, capacity: 0, context };
        pool.init_pool();
        pool
    }

    /// Builds the mode's initial number of items (`initial_size`) and puts
    /// them on top of the idle stack, counting each one in the capacity.
    fn init_pool(&mut self)
        requires
            old(self).built() + old(self).mode().initial_size() <= usize::MAX,
        ensures
            final(self).built() == old(self).built() + old(self).mode().initial_size(),
            final(self).idle().len() == old(self).idle().len() + old(self).mode().initial_size(),
            final(self).idle().subrange(0, old(self).idle().len() as int) == old(self).idle(),
            final(self).mode() == old(self).mode(),
            final(self).shared_context() == old(self).shared_context(),
            final(self).checked_out() == old(self).checked_out(),
    {
        let count: usize = match &self.scale_mode {
            PoolScaleMode::Static { count } => *count,
            PoolScaleMode::AutoScale { initial, .. } => *initial,
        };
        let ghost start = self.items@;
        let mut made: usize = 0;
        while made < count
            invariant
                made <= count,
                count == old(self).scale_mode.initial_size(),
                old(self).capacity + count <= usize::MAX,
                self.capacity == old(self).capacity + made,
                self.items@.len() == start.len() + made,
                self.items@.subrange(0, start.len() as int) == start,
                start == old(self).items@,
                self.scale_mode == old(self).scale_mode,
                self.context == old(self).context,
                self.in_use == old(self).in_use,
            decreases count - made,
        {
            self.capacity = self.capacity + 1;
            let item = T::new(&self.context);
            let ghost before = self.items@;
            self.add_node(item);
            assert(self.items@.subrange(0, start.len() as int) =~= before.subrange(0, start.len() as int));
            made = made + 1;
        }
    }

    /// Hands out an idle item, growing a dry pool first when its policy allows;
    /// `None` when no item is available.
    pub fn get(&mut self) -> (r: Option<PoolGuard<T>>)
        requires
            old(self).wf(),
        ensures
            final(self).wf(),
            Self::acquired(*old(self), *final(self), r),
    {
        if self.items.len() == 0 {
            let target = self.scale_mode.growth_target(self.capacity);
            if target <= self.capacity {
                return None;
            }
            self.grow_to(target);
        }
        match self.items.pop() {
            Some(item) => {
                self.in_use = self.in_use + 1;
                Some(PoolGuard { item })
            },
            None => None,
        }
    }

    /// Takes back a checked-out item whose reset gave `valid`: a valid item
    /// goes back on top of the idle stack; an invalid one is dropped, and a
    /// static pool builds a fresh one in its place.
    pub fn return_item(&mut self, item: T, valid: bool)
        requires
            old(self).wf(),
            old(self).checked_out() > 0,
        ensures
            final(self).wf(),
            Self::returned(*old(self), *final(self), item, valid),
            final(self).tally() == old(self).tally().release(old(self).mode(), valid),
    {
        self.in_use = self.in_use - 1;
        if valid {
            self.add_node(item);
        } else if let PoolScaleMode::Static { .. } = self.scale_mode {
            let fresh = T::new(&self.context);
            self.add_node(fresh);
            assert(self.items@.drop_last() =~= old(self).items@);
        }
    }

    /// Resets a checked-out item and takes it back; answers whether the reset
    /// succeeded, so whether this very item is idle again.
    pub fn readd_node(&mut self, item: T) -> (valid: bool)
        requires
            old(self).wf(),
            old(self).checked_out() > 0,
        ensures
            final(self).wf(),
            exists|cleaned: T| Self::returned(*old(self), *final(self), cleaned, valid),
            final(self).tally() == old(self).tally().release(old(self).mode(), valid),
    {
        let mut item = item;
        let valid = item.reset();
        self.return_item(item, valid);
        valid
    }

    /// Hands a guard's item back to the pool, through the item's reset.
    pub fn release(&mut self, guard: PoolGuard<T>) -> (valid: bool)
        requires
            old(self).wf(),
            old(self).checked_out() > 0,
        ensures
            final(self).wf(),
            exists|cleaned: T| Self::returned(*old(self), *final(self), cleaned, valid),
            final(self).tally() == old(self).tally().release(old(self).mode(), valid),
    {
        self.readd_node(guard.into_inner())
    }

    /// Number of idle items.
    pub fn count(&self) -> (r: usize)
        ensures
            r == self.idle().len(),
    {
        self.items.len()
    }

    /// Number of items ever built.
    pub fn capacity(&self) -> (r: usize)
        ensures
            r == self.built(),
    {
        self.capacity
    }

    /// Number of items handed out and not returned.
    pub fn in_use(&self) -> (r: usize)
        ensures
            r == self.checked_out(),
    {
        self.in_use
    }

    /// The policy the pool was made with.
    pub fn scale_mode(&self) -> (r: &PoolScaleMode)
        ensures
            *r == self.mode(),
    {
        &self.scale_mode
    }

    /// The context shared by every construction.
    pub fn context(&self) -> (r: &C)
        ensures
            *r == self.shared_context(),
    {
        &self.context
    }

    /// Puts an item on top of the idle stack.
    fn add_node(&mut self, item: T)
        ensures
            final(self).idle() == old(self).idle().push(item),
            final(self).mode() == old(self).mode(),
            final(self).shared_context() == old(self).shared_context(),
            final(self).checked_out() == old(self).checked_out(),
            final(self).built() == old(self).built(),
    {
        self.items.push(item);
    }

    /// Builds items one at a time, each pushed onto the idle stack, until
    /// `target` items have been built in all.
    fn grow_to(&mut self, target: usize)
        requires
            old(self).built() <= target,
        ensures
            final(self).built() == target,
            final(self).idle().len() == old(self).idle().len() + (target - old(self).built()),
            final(self).idle().subrange(0, old(self).idle().len() as int) == old(self).idle(),
            final(self).mode() == old(self).mode(),
            final(self).shared_context() == old(self).shared_context(),
            final(self).checked_out() == old(self).checked_out(),
    {
        let ghost start = self.items@;
        while self.capacity < target
            invariant
                old(self).capacity <= self.capacity <= target,
                self.items@.len() == start.len() + (self.capacity - old(self).capacity),
                self.items@.subrange(0, start.len() as int) == start,
                start == old(self).items@,
                self.scale_mode == old(self).scale_mode,
                self.context == old(self).context,
                self.in_use == old(self).in_use,
            decreases target - self.capacity,
        {
            self.capacity = self.capacity + 1;
            let item = T::new(&self.context);
            let ghost before = self.items@;
            self.add_node(item);
            assert(self.items@.subrange(0, start.len() as int) =~= before.subrange(0, start.len() as int));
        }
    }
}

} // verus!
