use super::future::Future;
use vstd::prelude::*;

verus! {

/// A future of the next value and the rest of the stream.
pub trait Stream<T: Send + 'static>: Future<Option<(T, Self)>> {
    /// Calls `cb` with each value of the stream, in order.
    fn each<F>(self, cb: F) where F: Fn(T) -> () + Send + 'static
        requires
            forall|val: T| cb.requires((val,)),
    ;
}

} // verus!
