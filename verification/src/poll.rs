//! The answer of an operation that may not have finished yet.

use vstd::prelude::*;

verus! {

/// What a poll came back with: the finished value, or the news that there is none yet.
#[derive(Debug, PartialEq, Eq)]
pub enum Poll<X> {
    /// The operation has finished with this value.
    Ready(X),
    /// The operation has not finished.
    Pending,
}

} // verus!
