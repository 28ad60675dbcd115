//! Readiness of an operation that may have to wait.

use vstd::prelude::*;

verus! {

/// The outcome of polling: a value, or nothing yet.
#[derive(Debug)]
pub enum Poll<T> {
    /// The operation is complete.
    Ready(T),
    /// The operation has to be polled again later.
    Pending,
}

} // verus!
