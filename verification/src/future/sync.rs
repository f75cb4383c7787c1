use vstd::prelude::*;

verus! {

/// A future whose value a thread can sleep for, or look for without
/// sleeping.
pub trait SyncFuture<T>: Sized {
    /// Get the value from the future, blocking if necessary.
    fn take(self) -> T;

    /// Gets the value from the future if it has been completed.
    fn try_take(self) -> Result<T, Self>;
}

} // verus!
