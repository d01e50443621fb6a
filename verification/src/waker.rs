//! The parts of `std::task::Waker` that the library calls.
//!
//! A `Waker` is opaque here: the library stores wakers, asks whether two of
//! them wake the same task, and hands them out to whoever wakes or drops them.
use std::task::Waker;
use vstd::prelude::*;

verus! {

/// `std::task::Waker`, carried through as an opaque value.
#[verifier::external_type_specification]
#[verifier::external_body]
pub struct ExWaker(Waker);

/// `Waker::will_wake`, which tells whether two wakers wake the same task.
///
/// The answer is the best effort of the standard library and may rest on
/// addresses: yes means that both wake the same task, no means nothing. Which
/// task a waker wakes is not modelled here, so neither is claimed.
pub assume_specification[ Waker::will_wake ](waker: &Waker, other: &Waker) -> (same: bool);

/// `Waker::clone`, which makes another waker for the same task.
///
/// It runs the clone function that the executor put into the waker. Which task
/// a waker wakes is not modelled here, so nothing is claimed of the copy.
pub assume_specification[ <Waker as Clone>::clone ](waker: &Waker) -> (copy: Waker);

} // verus!
