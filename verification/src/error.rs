//! Failure kinds of the allocation pool and the supply.

use vstd::prelude::*;

verus! {

/// Why a reservation could not be completed.
///
/// `Exhausted` is the only kind this crate's own operations produce: every
/// ordinal below the capacity is taken. `AllocFailure` and `FormatFailure`
/// belong to the same taxonomy and are reserved for callers that drive the
/// reserve/fill protocol themselves and whose population step (storage
/// allocation, name construction) can fail; the pool's rollback discipline
/// covers them through [`crate::pool::Pool::free`].
#[derive(Clone, Copy, Debug, PartialEq, Eq, Structural)]
pub enum PoolError {
    /// No free ordinal exists below the capacity bound.
    Exhausted,
    /// Underlying storage allocation failed.
    AllocFailure,
    /// Constructing the formatted name failed.
    FormatFailure,
}

} // verus!
