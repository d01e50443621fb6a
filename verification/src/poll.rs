//! What one poll of a pending operation gives.
use vstd::prelude::*;

verus! {

/// The outcome of a poll: a value, or nothing yet.
#[derive(Debug, PartialEq, Eq)]
pub enum Poll<T> {
    /// The operation is over and gave this value.
    Ready(T),
    /// The operation is not over; its task is to be woken when it is.
    Pending,
}

} // verus!
