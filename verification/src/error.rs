//! The ways an access to a checked cell can be refused.

use vstd::prelude::*;

verus! {

/// Why an operation on a cell was refused.
///
/// Every violation is detected synchronously at the offending call and ends
/// that operation; none is retried or downgraded.
#[derive(Clone, Copy, Debug, PartialEq, Eq, Structural)]
pub enum AccessError {
    /// Access was attempted from a thread other than the one that first
    /// touched the cell.
    ThreadAffinityViolation,
    /// An exclusive access was requested while any access is outstanding, or
    /// any access was requested while an exclusive access is outstanding.
    BorrowConflict,
    /// Access was attempted on a cell whose one-time initializer has not run.
    NotInitialized,
    /// A second one-time initialization was attempted.
    AlreadyInitialized,
    /// Access was attempted on an optional cell holding no value.
    EmptyValue,
}

} // verus!
