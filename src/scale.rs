use vstd::prelude::*;

verus! {

/// How a pool sizes its stock of items.
pub enum PoolScaleMode {
    /// A fixed stock of `count` items, built at creation.
    Static { count: usize },
    /// `initial` items at creation; when the pool runs dry it grows by
    /// `chunk_size` items (or doubles, when `chunk_size` is 0), never past
    /// `maximum` when one is given.
    AutoScale { maximum: Option<usize>, initial: usize, chunk_size: usize },
}

/// The counters of a pool: items idle in the pool, items handed out and not
/// returned, and items ever built (`capacity`).
pub ghost struct Tally {
    pub idle: nat,
    pub in_use: nat,
    pub capacity: nat,
}

impl PoolScaleMode {
    /// Number of items built when the pool is created.
    pub open spec fn initial_size(self) -> nat {
        match self {
            PoolScaleMode::Static { count } => count as nat,
            PoolScaleMode::AutoScale { initial, .. } => initial as nat,
        }
    }

    pub open spec fn is_static(self) -> bool {
        self is Static
    }

    /// The largest capacity a pool in this mode can ever reach.
    pub open spec fn capacity_bound(self) -> nat {
        match self {
            PoolScaleMode::Static { count } => count as nat,
            PoolScaleMode::AutoScale { maximum, initial, .. } => match maximum {
                Some(m) => if initial <= m { m as nat } else { initial as nat },
                None => usize::MAX as nat,
            },
        }
    }

    /// How much a dry pool with `capacity` items asks to grow by, before the
    /// ceiling is applied: the chunk, or the capacity itself when doubling
    /// (one item when there are none yet).
    pub open spec fn growth_step(self, capacity: nat) -> nat {
        match self {
            PoolScaleMode::Static { .. } => 0,
            PoolScaleMode::AutoScale { chunk_size, .. } => if chunk_size == 0 {
                if capacity == 0 { 1 } else { capacity }
            } else {
                chunk_size as nat
            },
        }
    }

    /// The capacity that a dry pool with `capacity` items grows to. It equals
    /// `capacity` when no growth is allowed: a static pool, a pool already at
    /// its maximum, or one whose count of items cannot grow in a `usize`.
    pub open spec fn grown_capacity(self, capacity: nat) -> nat {
        match self {
            PoolScaleMode::Static { .. } => capacity,
            PoolScaleMode::AutoScale { maximum, .. } => {
                let wanted = capacity + self.growth_step(capacity);
                let wanted = if wanted > usize::MAX { usize::MAX as nat } else { wanted };
                match maximum {
                    Some(m) => if capacity >= m {
                        capacity
                    } else if wanted > m {
                        m as nat
                    } else {
                        wanted
                    },
                    None => wanted,
                }
            },
        }
    }

    /// The capacity a dry pool grows to, as `grown_capacity` states it.
    pub fn growth_target(&self, capacity: usize) -> (r: usize)
        ensures
            r == self.grown_capacity(capacity as nat),
    {
        match self {
            PoolScaleMode::Static { .. } => capacity,
            PoolScaleMode::AutoScale { maximum, chunk_size, .. } => {
                let step: usize = if *chunk_size == 0 {
                    if capacity == 0 { 1 } else { capacity }
                } else {
                    *chunk_size
                };
                let wanted: usize = if step > usize::MAX - capacity {
                    usize::MAX
                } else {
                    capacity + step
                };
                match maximum {
                    Some(m) => if capacity >= *m {
                        capacity
                    } else if wanted > *m {
                        *m
                    } else {
                        wanted
                    },
                    None => wanted,
                }
            },
        }
    }
}

impl Tally {
    /// The counters of a pool just created in `mode`.
    pub open spec fn fresh(mode: PoolScaleMode) -> Tally {
        Tally { idle: mode.initial_size(), in_use: 0, capacity: mode.initial_size() }
    }

    /// One request for an item: `None` when nothing is available, otherwise
    /// the counters after one item was handed out (growing a dry pool first).
    pub open spec fn acquire(self, mode: PoolScaleMode) -> Option<Tally> {
        if self.idle > 0 {
            Some(Tally { idle: (self.idle - 1) as nat, in_use: self.in_use + 1, capacity: self.capacity })
        } else {
            let grown = mode.grown_capacity(self.capacity);
            if grown > self.capacity {
                Some(Tally { idle: (grown - self.capacity - 1) as nat, in_use: self.in_use + 1, capacity: grown })
            } else {
                None
            }
        }
    }

    /// The counters after a request, whether or not it was served.
    pub open spec fn after_acquire(self, mode: PoolScaleMode) -> Tally {
        match self.acquire(mode) {
            Some(t) => t,
            None => self,
        }
    }

    /// The counters after `k` requests in a row whose items are all kept.
    pub open spec fn acquire_many(self, mode: PoolScaleMode, k: nat) -> Tally
        decreases k,
    {
        if k == 0 {
            self
        } else {
            self.after_acquire(mode).acquire_many(mode, (k - 1) as nat)
        }
    }

    /// The counters after an item comes back, `valid` telling whether its
    /// reset succeeded. A failed item is replaced in a static pool and simply
    /// dropped in a scaling one.
    pub open spec fn release(self, mode: PoolScaleMode, valid: bool) -> Tally {
        Tally {
            idle: if valid || mode.is_static() { self.idle + 1 } else { self.idle },
            in_use: (self.in_use - 1) as nat,
            capacity: self.capacity,
        }
    }

    /// The counters after `k` items come back, with the same reset outcome.
    pub open spec fn release_many(self, mode: PoolScaleMode, k: nat, valid: bool) -> Tally
        decreases k,
    {
        if k == 0 {
            self
        } else {
            self.release(mode, valid).release_many(mode, (k - 1) as nat, valid)
        }
    }
}

} // verus!
