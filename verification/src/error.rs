//! What a sum can fail with.

use vstd::prelude::*;

verus! {

/// The two ways in which a call fails. Overflow is not among them: totals
/// wrap.
#[derive(Clone, Copy, Debug, PartialEq, Eq, Structural)]
pub enum SumError {
    /// The element type is not one that a sum runs over.
    NotSupported,
    /// The caller broke the calling convention: a batch of another
    /// representation than the accumulator's, or a call with another number
    /// of arguments than one.
    Internal,
}

} // verus!
