//! A reusable-object pool: items are built once from a shared context, handed
//! out on request, reset and taken back when their holder is done, and the
//! stock grows on demand according to a scaling policy.
pub mod laws;
mod pool;
mod scale;

pub use pool::{Pool, PoolGuard, Poolable};
pub use scale::{PoolScaleMode, Tally};
