use super::val::{future, Completer, FutureVal};
use std::time::Duration;
use vstd::prelude::*;

verus! {

/// A handle that can give its future up.
pub trait Cancel {
    /// If not already completed, signals that the consumer is no longer
    /// interested in the result of the future.
    fn cancel(self);
}

/// A value that arrives later, or an error in its place.
pub trait Future<T: Send + 'static>: Send + Sized + 'static {
    /// When the future is complete, call the supplied function with the
    /// value.
    fn receive<F>(self, f: F) where F: FnOnce(FutureResult<T>) + Send + 'static
        requires
            forall|val: FutureResult<T>| f.requires((val,)),
    ;

    /// Maps a future of `T` to a future of `U` by applying a function to
    /// the value once it is realized. An error passes through unchanged.
    /// Nothing is asked of this future before someone asks for the result.
    fn map<U, F>(self, f: F) -> FutureVal<U> where
        U: Send + 'static,
        F: FnOnce(T) -> U + Send + 'static,

        requires
            forall|v: T| f.requires((v,)),
    {
        let (ret, producer) = future::<U>();
        let interested = move |p: FutureResult<Completer<U>>|
            requires
                forall|v: T| f.requires((v,)),
            {
                if let Ok(p) = p {
                    let mapped = move |val: FutureResult<T>|
                        requires
                            forall|v: T| f.requires((v,)),
                        {
                            match val {
                                Ok(v) => p.complete(f(v)),
                                Err(e) => p.resolve(Err(e)),
                            }
                        };
                    self.receive(mapped);
                }
            };
        producer.receive(interested);
        ret
    }

    /// Chains a second future behind this one: `f` makes it from this
    /// future's value, and its result is the result. An error of this
    /// future passes through unchanged, and `f` is not called.
    fn and_then<U, F>(self, f: F) -> FutureVal<U> where
        U: Send + 'static,
        F: FnOnce(T) -> FutureVal<U> + Send + 'static,

        requires
            forall|v: T| f.requires((v,)),
    {
        let (ret, producer) = future::<U>();
        // Wait for the consumer to express interest in the final future
        let interested = move |p: FutureResult<Completer<U>>|
            requires
                forall|v: T| f.requires((v,)),
            {
                if let Ok(p) = p {
                    let chained = move |val: FutureResult<T>|
                        requires
                            forall|v: T| f.requires((v,)),
                        {
                            match val {
                                Ok(v) => {
                                    // If the value is successful, pass it to the
                                    // supplied function and then register a callback
                                    // to handle the new future
                                    let last = move |val: FutureResult<U>| { p.resolve(val) };
                                    f(v).receive(last);
                                },
                                Err(e) => p.resolve(Err(e)),
                            }
                        };
                    // Register a callback to handle this future
                    self.receive(chained);
                }
            };
        producer.receive(interested);
        ret
    }
}

/// A future that a thread can sleep for.
pub trait SyncFuture<T> {
    /// Get the value from the future, blocking if necessary.
    fn take(self) -> FutureResult<T>;

    /// As `take`, sleeping no longer than `timeout`. A future that is not
    /// complete by then is given up, which is a cancelation error.
    fn take_timed(self, timeout: Duration) -> FutureResult<T>;
}

/// Why a future ended without a value.
#[derive(Debug, Clone, Copy, PartialEq, Eq, Structural)]
pub enum FutureErrorKind {
    /// The producer reported a failure.
    ExecutionError,
    /// The opposite handle went away before the value was delivered.
    CancelationError,
}

/// The error that a future delivers in place of a value: its kind and a
/// static description.
#[derive(Debug, Clone, Copy)]
pub struct FutureError {
    pub kind: FutureErrorKind,
    pub desc: &'static str,
}

/// What a future delivers.
pub type FutureResult<T> = Result<T, FutureError>;

impl FutureError {
    /// The error of a producer that failed with `desc`.
    pub fn execution(desc: &'static str) -> (e: FutureError)
        ensures
            e.kind == FutureErrorKind::ExecutionError,
            e.desc == desc,
    {
        FutureError { kind: FutureErrorKind::ExecutionError, desc }
    }

    /// The error that the surviving handle sees once its peer is gone.
    pub fn cancelation(desc: &'static str) -> (e: FutureError)
        ensures
            e.kind == FutureErrorKind::CancelationError,
            e.desc == desc,
    {
        FutureError { kind: FutureErrorKind::CancelationError, desc }
    }

    pub fn is_cancelation_error(&self) -> (b: bool)
        ensures
            b == (self.kind == FutureErrorKind::CancelationError),
    {
        match self.kind {
            FutureErrorKind::CancelationError => true,
            _ => false,
        }
    }

    pub fn is_execution_error(&self) -> (b: bool)
        ensures
            b == (self.kind == FutureErrorKind::ExecutionError),
    {
        match self.kind {
            FutureErrorKind::ExecutionError => true,
            _ => false,
        }
    }
}

} // verus!
