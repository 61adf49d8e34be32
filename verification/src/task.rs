//! What polling a future gives back.
use vstd::prelude::*;

verus! {

/// The outcome of one poll: the future's output, or that it is still waiting.
#[derive(Debug, PartialEq, Eq)]
pub enum Poll<T> {
    Ready(T),
    Pending,
}

} // verus!
