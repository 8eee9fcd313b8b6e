use vstd::prelude::*;

verus! {

/// Outcome of one attempt at an operation that gives up instead of blocking
/// when the part of the map it needs is locked by someone else.
pub enum Step<T> {
    /// The operation ran to completion and produced this result.
    Ready(T),
    /// The operation could not take the lock; nothing was changed, and the
    /// caller is expected to try again later.
    Pending,
}

} // verus!
