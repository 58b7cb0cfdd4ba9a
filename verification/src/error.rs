//! The error kinds of the memory descriptor and of the memory instance.

use vstd::prelude::*;

verus! {

/// Why a page-count range was rejected.
#[derive(Clone, Copy, Debug, PartialEq, Eq, Structural)]
pub enum LimitError {
    /// The minimum page count is larger than the maximum.
    InvalidRange,
}

/// Why an operation on a memory instance failed.
#[derive(Clone, Copy, Debug, PartialEq, Eq, Structural)]
pub enum MemoryError {
    /// The buffer could not be allocated or enlarged.
    AllocationFailed,
    /// The addressed range, or the page count asked for, lies beyond what
    /// the instance currently holds or may grow to.
    OutOfBounds,
    /// The instance cannot produce its descriptor.
    TypeUnavailable,
    /// The buffer cannot be referenced.
    ViewUnavailable,
}

} // verus!
