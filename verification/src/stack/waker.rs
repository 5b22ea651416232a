//! Wakers, by the tasks that they wake.
use std::task::Waker;
use vstd::prelude::*;

verus! {

/// The waker of a task.
#[verifier::external_type_specification]
#[verifier::external_body]
pub struct ExWaker(std::task::Waker);

/// The task that a waker wakes. A clone of a waker wakes the same task, and so do two wakers of
/// which one says that it would wake the other's.
pub uninterp spec fn task(waker: Waker) -> int;

} // verus!
