//! The outcome of one attempt at an operation that may have to wait.
use crate::error::{viewed, Error, ErrorView};
use vstd::prelude::*;

verus! {

/// Either the operation is over, or its task will be woken for another attempt.
#[derive(Debug, PartialEq, Eq)]
pub enum Poll<T> {
    Ready(T),
    Pending,
}

impl<T> Poll<Result<T, Error>> {
    /// The outcome with its error taken as a mathematical value.
    pub open spec fn outcome(self) -> Poll<Result<T, ErrorView>> {
        match self {
            Poll::Ready(result) => Poll::Ready(viewed(result)),
            Poll::Pending => Poll::Pending,
        }
    }
}

} // verus!
