//! A future of one value and its completer.
//!
//! The two handles share a `Core` behind a mutex. Either side may come
//! first: the consumer finds a value that is already there, or leaves a
//! callback (or goes to sleep) until the producer brings one. The producer in
//! turn can wait for the consumer's interest before it starts any work.
//! Callbacks are always called after the lock is released.

use super::callback::{Callback, Notify};
use super::future::{Cancel, Future, FutureError, FutureErrorKind, FutureResult, SyncFuture};
use crate::sync::lock::{guard_mut, lock, unlock, wait_timeout_while, wait_while, Attempt};
use std::sync::{Arc, Condvar, Mutex, MutexGuard};
use std::time::Duration;
use vstd::prelude::*;

verus! {

/// How one side waits for the other.
#[verifier::reject_recursive_types(A)]
pub enum WaitStrategy<A> {
    /// With a callback that is to be called with what it waits for.
    Callback(Callback<A>),
    /// Asleep on the condition variable.
    Sync,
}

/// Which side waits, if any.
#[verifier::reject_recursive_types(T)]
pub enum Completion<T> {
    Pending,
    /// The consumer waits for the value.
    ConsumerWait(WaitStrategy<FutureResult<T>>),
    /// The producer waits for the consumer's interest. It is told `Ok` once
    /// the consumer is there and an error once the consumer is gone.
    CompleterWait(WaitStrategy<FutureResult<()>>),
}

impl<T> Completion<T> {
    pub fn is_pending(&self) -> (b: bool)
        ensures
            b == (self is Pending),
    {
        match self {
            Completion::Pending => true,
            _ => false,
        }
    }

    pub fn is_consumer_wait(&self) -> (b: bool)
        ensures
            b == (self is ConsumerWait),
    {
        match self {
            Completion::ConsumerWait(_) => true,
            _ => false,
        }
    }

    pub fn is_completer_wait(&self) -> (b: bool)
        ensures
            b == (self is CompleterWait),
    {
        match self {
            Completion::CompleterWait(_) => true,
            _ => false,
        }
    }
}

/// The state that a future and its completer share.
#[verifier::reject_recursive_types(T)]
pub struct Core<T> {
    /// The value, from the moment the producer brought it until the
    /// consumer takes it.
    pub val: Option<FutureResult<T>>,
    pub completion: Completion<T>,
    /// Whether the consumer has given the future up.
    pub canceled: bool,
}

/// The description of the error that a producer sees once the consumer has
/// given the future up.
pub open spec fn consumer_gone() -> FutureError {
    FutureError {
        kind: FutureErrorKind::CancelationError,
        desc: "canceled by consumer",
    }
}

/// What a producer's wait for interest ends with.
#[derive(Debug, Clone, Copy, PartialEq, Eq, Structural)]
pub enum Interest {
    /// The consumer has shown interest.
    Shown,
    /// The consumer has given the future up.
    Gone,
}

/// The producer's wait for interest, as it stands in its own state.
pub struct Awaited {
    /// Whether the producer has put its wait on record.
    pub registered: bool,
    /// What the wait ended with, once it has ended.
    pub outcome: Option<Interest>,
}

impl<T> Core<T> {
    /// A value is never there while the consumer waits for it.
    pub open spec fn wf(self) -> bool {
        self.val is Some ==> !(self.completion is ConsumerWait)
    }

    /// The state of a new future: no value, nobody waits.
    pub open spec fn initial() -> Core<T> {
        Core { val: None, completion: Completion::Pending, canceled: false }
    }

    pub fn new() -> (core: Core<T>)
        ensures
            core == Core::<T>::initial(),
            core.wf(),
    {
        Core { val: None, completion: Completion::Pending, canceled: false }
    }

    /// Stores the value. None may be there yet.
    pub fn put(&mut self, val: FutureResult<T>)
        requires
            old(self).val is None,
        ensures
            *final(self) == (Core { val: Some(val), ..*old(self) }),
    {
        self.val = Some(val);
    }

    /// Moves the value out, if there is one.
    pub fn take_value(&mut self) -> (val: Option<FutureResult<T>>)
        ensures
            val == old(self).val,
            *final(self) == (Core { val: None, ..*old(self) }),
    {
        self.val.take()
    }

    /// Moves the consumer's wait out, if the consumer waits.
    pub fn take_consumer_wait(&mut self) -> (wait: Completion<T>)
        ensures
            wait == old(self).consumer_wait(),
            *final(self) == old(self).without_consumer_wait(),
    {
        if self.completion.is_consumer_wait() {
            let mut wait = Completion::Pending;
            std::mem::swap(&mut self.completion, &mut wait);
            wait
        } else {
            Completion::Pending
        }
    }

    /// Moves the producer's wait out, if the producer waits.
    pub fn take_completer_wait(&mut self) -> (wait: Completion<T>)
        ensures
            wait == old(self).completer_wait(),
            *final(self) == old(self).without_completer_wait(),
    {
        if self.completion.is_completer_wait() {
            let mut wait = Completion::Pending;
            std::mem::swap(&mut self.completion, &mut wait);
            wait
        } else {
            Completion::Pending
        }
    }

    /// The consumer's wait, `Pending` where the consumer does not wait.
    pub open spec fn consumer_wait(self) -> Completion<T> {
        if self.completion is ConsumerWait {
            self.completion
        } else {
            Completion::Pending
        }
    }

    pub open spec fn without_consumer_wait(self) -> Core<T> {
        if self.completion is ConsumerWait {
            Core { completion: Completion::Pending, ..self }
        } else {
            self
        }
    }

    /// The producer's wait, `Pending` where the producer does not wait.
    pub open spec fn completer_wait(self) -> Completion<T> {
        if self.completion is CompleterWait {
            self.completion
        } else {
            Completion::Pending
        }
    }

    pub open spec fn without_completer_wait(self) -> Core<T> {
        if self.completion is CompleterWait {
            Core { completion: Completion::Pending, ..self }
        } else {
            self
        }
    }
}

impl<T> Core<T> {
    /// The state after the producer has brought `val`, and what is left to
    /// do outside the lock. A consumer that waits with a callback gets the
    /// value at once and the state keeps none. A second value is dropped.
    pub open spec fn completed(self, val: FutureResult<T>) -> (Core<T>, Notify<FutureResult<T>>) {
        if self.val is Some {
            (self, Notify::Nothing)
        } else {
            match self.completion {
                Completion::ConsumerWait(WaitStrategy::Callback(cb)) => (
                    Core { completion: Completion::Pending, ..self },
                    Notify::Invoke(cb, val),
                ),
                Completion::ConsumerWait(WaitStrategy::Sync) => (
                    Core { val: Some(val), completion: Completion::Pending, ..self },
                    Notify::Signal,
                ),
                _ => (Core { val: Some(val), ..self }, Notify::Nothing),
            }
        }
    }

    /// The producer brings `val`.
    pub fn complete(&mut self, val: FutureResult<T>) -> (action: Notify<FutureResult<T>>)
        ensures
            (*final(self), action) == old(self).completed(val),
            old(self).wf() ==> final(self).wf(),
    {
        if self.val.is_some() {
            return Notify::Nothing;
        }
        // Check if the consumer is waiting on the value, if so, it will
        // be notified that the value is ready.
        match self.take_consumer_wait() {
            Completion::ConsumerWait(strategy) => {
                match strategy {
                    // The callback gets the value once the lock is released
                    WaitStrategy::Callback(cb) => Notify::Invoke(cb, val),
                    // Otherwise, store the value and wake the consumer
                    WaitStrategy::Sync => {
                        self.put(val);
                        Notify::Signal
                    },
                }
            },
            _ => {
                self.put(val);
                Notify::Nothing
            },
        }
    }

    /// The state after the consumer has come with `cb`, and what is left
    /// to do outside the lock: a value that is there leaves with `cb`,
    /// else `cb` stays and waits.
    pub open spec fn received(self, cb: Callback<FutureResult<T>>) -> (
        Core<T>,
        Notify<FutureResult<T>>,
    ) {
        match self.val {
            Some(val) => (Core { val: None, ..self }, Notify::Invoke(cb, val)),
            None => (
                Core {
                    completion: Completion::ConsumerWait(WaitStrategy::Callback(cb)),
                    ..self
                },
                Notify::Nothing,
            ),
        }
    }

    /// The consumer comes with a callback.
    pub fn receive(&mut self, cb: Callback<FutureResult<T>>) -> (action: Notify<FutureResult<T>>)
        ensures
            (*final(self), action) == old(self).received(cb),
            final(self).wf(),
    {
        match self.take_value() {
            Some(val) => Notify::Invoke(cb, val),
            None => {
                self.completion = Completion::ConsumerWait(WaitStrategy::Callback(cb));
                Notify::Nothing
            },
        }
    }

    /// The state after one try of a consumer that sleeps for the value:
    /// the value leaves if it is there, else the wait is put on record.
    pub open spec fn tried_take(self) -> Core<T> {
        match self.val {
            Some(_) => Core { val: None, ..self },
            None => Core { completion: Completion::ConsumerWait(WaitStrategy::Sync), ..self },
        }
    }

    /// One try of a consumer that sleeps for the value.
    pub fn try_take(&mut self, out: &mut Option<FutureResult<T>>) -> (again: bool)
        ensures
            *final(self) == old(self).tried_take(),
            again == (old(self).val is None),
            again ==> *final(out) == *old(out),
            !again ==> *final(out) == old(self).val,
            final(self).wf(),
    {
        match self.take_value() {
            Some(val) => {
                *out = Some(val);
                false
            },
            None => {
                self.completion = Completion::ConsumerWait(WaitStrategy::Sync);
                true
            },
        }
    }

    /// The state after the consumer has shown its interest, and how a
    /// producer that waited for it is told.
    pub open spec fn noticed(self) -> (Core<T>, Notify<FutureResult<()>>) {
        match self.completion {
            Completion::CompleterWait(WaitStrategy::Callback(cb)) => (
                Core { completion: Completion::Pending, ..self },
                Notify::Invoke(cb, Ok(())),
            ),
            Completion::CompleterWait(WaitStrategy::Sync) => (
                Core { completion: Completion::Pending, ..self },
                Notify::Signal,
            ),
            _ => (self, Notify::Nothing),
        }
    }

    /// The consumer shows its interest: a producer that waits for it is to
    /// be told.
    pub fn notice(&mut self) -> (action: Notify<FutureResult<()>>)
        ensures
            (*final(self), action) == old(self).noticed(),
            old(self).wf() ==> final(self).wf(),
    {
        match self.take_completer_wait() {
            Completion::CompleterWait(strategy) => {
                match strategy {
                    WaitStrategy::Callback(cb) => Notify::Invoke(cb, Ok(())),
                    WaitStrategy::Sync => Notify::Signal,
                }
            },
            _ => Notify::Nothing,
        }
    }

    /// The state after the producer has asked for the consumer's interest
    /// with `cb`, and what is left to do outside the lock. `cb` is called
    /// at once with an error where the consumer is gone, and with `Ok`
    /// where the consumer is there already; else it stays and waits.
    pub open spec fn interest_received(self, cb: Callback<FutureResult<()>>) -> (
        Core<T>,
        Notify<FutureResult<()>>,
    ) {
        if self.canceled {
            (self, Notify::Invoke(cb, Err(consumer_gone())))
        } else if self.completion is Pending {
            (
                Core {
                    completion: Completion::CompleterWait(WaitStrategy::Callback(cb)),
                    ..self
                },
                Notify::Nothing,
            )
        } else {
            (self, Notify::Invoke(cb, Ok(())))
        }
    }

    /// The producer asks for the consumer's interest with a callback.
    pub fn completer_receive(&mut self, cb: Callback<FutureResult<()>>) -> (action: Notify<
        FutureResult<()>,
    >)
        ensures
            (*final(self), action) == old(self).interest_received(cb),
            old(self).wf() ==> final(self).wf(),
    {
        if self.canceled {
            return Notify::Invoke(cb, Err(gone()));
        }
        // If the consumer has not registered an interest yet, save off
        // the callback for when it does.
        if self.completion.is_pending() {
            self.completion = Completion::CompleterWait(WaitStrategy::Callback(cb));
            return Notify::Nothing;
        }
        Notify::Invoke(cb, Ok(()))
    }

    /// The state after one try of a producer that sleeps for the
    /// consumer's interest.
    pub open spec fn tried_await(self, out: Awaited) -> Core<T> {
        if !self.canceled && !out.registered && self.completion is Pending {
            Core { completion: Completion::CompleterWait(WaitStrategy::Sync), ..self }
        } else {
            self
        }
    }

    /// How far the wait of a producer that sleeps for the consumer's
    /// interest has come after one try: it ends with an error where the
    /// consumer is gone; it goes on while no interest was shown since the
    /// wait was put on record; else it ends with `Ok`.
    pub open spec fn awaited(self, out: Awaited) -> Awaited {
        if self.canceled {
            Awaited { outcome: Some(Interest::Gone), ..out }
        } else if !out.registered && self.completion is Pending {
            Awaited { registered: true, ..out }
        } else if out.registered && self.completion is CompleterWait {
            out
        } else {
            Awaited { outcome: Some(Interest::Shown), ..out }
        }
    }

    /// One try of a producer that sleeps for the consumer's interest.
    pub fn try_await(&mut self, out: &mut Awaited) -> (again: bool)
        requires
            old(out).outcome is None,
        ensures
            *final(self) == old(self).tried_await(*old(out)),
            *final(out) == old(self).awaited(*old(out)),
            again == (final(out).outcome is None),
            old(self).wf() ==> final(self).wf(),
    {
        if self.canceled {
            out.outcome = Some(Interest::Gone);
            return false;
        }
        if !out.registered {
            if self.completion.is_pending() {
                self.completion = Completion::CompleterWait(WaitStrategy::Sync);
                out.registered = true;
                return true;
            }
        } else if self.completion.is_completer_wait() {
            return true;
        }
        out.outcome = Some(Interest::Shown);
        false
    }

    /// The state after the consumer has given the future up, and how a
    /// producer that waited for its interest is told.
    pub open spec fn canceled_by_consumer(self) -> (Core<T>, Notify<FutureResult<()>>) {
        match self.completion {
            Completion::CompleterWait(WaitStrategy::Callback(cb)) => (
                Core { completion: Completion::Pending, canceled: true, ..self },
                Notify::Invoke(cb, Err(consumer_gone())),
            ),
            Completion::CompleterWait(WaitStrategy::Sync) => (
                Core { completion: Completion::Pending, canceled: true, ..self },
                Notify::Signal,
            ),
            _ => (Core { canceled: true, ..self }, Notify::Nothing),
        }
    }

    /// The consumer gives the future up.
    pub fn cancel(&mut self) -> (action: Notify<FutureResult<()>>)
        ensures
            (*final(self), action) == old(self).canceled_by_consumer(),
            old(self).wf() ==> final(self).wf(),
    {
        self.canceled = true;
        match self.take_completer_wait() {
            Completion::CompleterWait(strategy) => {
                match strategy {
                    WaitStrategy::Callback(cb) => Notify::Invoke(cb, Err(gone())),
                    WaitStrategy::Sync => Notify::Signal,
                }
            },
            _ => Notify::Nothing,
        }
    }

    /// Whether the value is there.
    pub fn is_complete(&self) -> (b: bool)
        ensures
            b == (self.val is Some),
    {
        self.val.is_some()
    }

    /// What a producer that asks for the consumer's interest is told at
    /// once: an error where the consumer is gone, `Ok` where it waits, and
    /// nothing else.
    pub open spec fn shown_interest(self) -> Option<FutureResult<()>> {
        if self.canceled {
            Some(Err(consumer_gone()))
        } else if self.completion is ConsumerWait {
            Some(Ok(()))
        } else {
            None
        }
    }

    /// The consumer's interest as it stands, without waiting for it.
    pub fn interest(&self) -> (shown: Option<FutureResult<()>>)
        ensures
            shown == self.shown_interest(),
    {
        if self.canceled {
            Some(Err(gone()))
        } else if self.completion.is_consumer_wait() {
            Some(Ok(()))
        } else {
            None
        }
    }
}

/// A value that the producer brought first reaches the callback with which
/// the consumer comes, once: the callback is to be called with that value,
/// and the state keeps neither of them.
pub proof fn lemma_complete_then_receive<T>(
    core: Core<T>,
    val: FutureResult<T>,
    cb: Callback<FutureResult<T>>,
)
    requires
        core.val is None,
        !(core.completion is ConsumerWait),
    ensures
        core.completed(val) == (Core { val: Some(val), ..core }, Notify::<FutureResult<T>>::Nothing),
        core.completed(val).0.received(cb) == (core, Notify::Invoke(cb, val)),
{
}

/// A callback with which the consumer came first is called with the value
/// that the producer brings, once: the value goes to the callback and not
/// into the state, which keeps neither of them.
pub proof fn lemma_receive_then_complete<T>(
    core: Core<T>,
    val: FutureResult<T>,
    cb: Callback<FutureResult<T>>,
)
    requires
        core.val is None,
    ensures
        core.received(cb).1 == Notify::<FutureResult<T>>::Nothing,
        core.received(cb).0.completed(val) == (
            Core { completion: Completion::Pending, ..core },
            Notify::Invoke(cb, val),
        ),
{
}

/// A consumer that sleeps for the value is woken by the producer and then
/// finds the value, once.
pub proof fn lemma_take_then_complete<T>(core: Core<T>, val: FutureResult<T>)
    requires
        core.val is None,
    ensures
        core.tried_take().completed(val) == (
            Core { val: Some(val), completion: Completion::Pending, ..core },
            Notify::<FutureResult<T>>::Signal,
        ),
        core.tried_take().completed(val).0.tried_take() == (Core {
            completion: Completion::Pending,
            ..core
        }),
{
}

/// A producer that asked for the consumer's interest first is told `Ok`
/// when the consumer comes, before the consumer looks for the value.
pub proof fn lemma_interest_then_consumer<T>(core: Core<T>, cb: Callback<FutureResult<()>>)
    requires
        core.completion is Pending,
        !core.canceled,
    ensures
        core.interest_received(cb).1 == Notify::<FutureResult<()>>::Nothing,
        core.interest_received(cb).0.noticed() == (core, Notify::Invoke(cb, Ok(()))),
{
}

/// A producer that asks for interest while the consumer waits is told
/// `Ok` at once, and the consumer's wait stays as it is.
pub proof fn lemma_consumer_then_interest<T>(core: Core<T>, cb: Callback<FutureResult<()>>)
    requires
        core.completion is ConsumerWait,
        !core.canceled,
    ensures
        core.interest_received(cb) == (core, Notify::Invoke(cb, Ok(()))),
{
}

/// Once the consumer has given the future up, a producer that asks for its
/// interest is told so with a cancelation error, whatever it asks with; and
/// one that waited for the interest is told so by the cancelation itself.
pub proof fn lemma_cancel_reaches_producer<T>(core: Core<T>, cb: Callback<FutureResult<()>>)
    requires
        core.completion is Pending,
        !core.canceled,
    ensures
        consumer_gone().kind == FutureErrorKind::CancelationError,
        core.canceled_by_consumer().0.interest_received(cb).1 == Notify::Invoke(
            cb,
            Err::<(), FutureError>(consumer_gone()),
        ),
        core.canceled_by_consumer().0.awaited(Awaited { registered: false, outcome: None }).outcome
            == Some(Interest::Gone),
        core.interest_received(cb).0.canceled_by_consumer().1 == Notify::Invoke(
            cb,
            Err::<(), FutureError>(consumer_gone()),
        ),
{
}

/// The error that a producer sees once the consumer has given the future up.
pub fn gone() -> (e: FutureError)
    ensures
        e == consumer_gone(),
{
    FutureError::cancelation("canceled by consumer")
}

impl<T> Attempt<Option<FutureResult<T>>> for Core<T> {
    open spec fn done(out: Option<FutureResult<T>>) -> bool {
        out is Some
    }

    /// One try of a consumer that sleeps for the value: `try_take`.
    fn attempt(&mut self, out: &mut Option<FutureResult<T>>) -> (again: bool)
        ensures
            *final(self) == old(self).tried_take(),
            again == (old(self).val is None),
            again ==> *final(out) == *old(out),
            !again ==> *final(out) == old(self).val,
            final(self).wf(),
    {
        self.try_take(out)
    }
}

impl<T> Attempt<Awaited> for Core<T> {
    open spec fn done(out: Awaited) -> bool {
        out.outcome is Some
    }

    /// One try of a producer that sleeps for the consumer's interest:
    /// `try_await`.
    fn attempt(&mut self, out: &mut Awaited) -> (again: bool)
        ensures
            *final(self) == old(self).tried_await(*old(out)),
            *final(out) == old(self).awaited(*old(out)),
            again == (final(out).outcome is None),
            old(self).wf() ==> final(self).wf(),
    {
        self.try_await(out)
    }
}

/// How many producer callbacks one consumer call serves. A producer that
/// renews its callback from inside the callback is served again by the same
/// call, one callback after the other, until it has been served this often.
pub const MAX_NOTICES: usize = usize::MAX;

/// A future and the completer that supplies its value: the two are handles
/// to one state.
pub fn future<T: Send + 'static>() -> (pair: (FutureVal<T>, Completer<T>))
    ensures
        pair.1.completes(pair.0),
{
    let inner = FutureImpl::new();
    let f = FutureVal::new(inner.clone());
    let c = Completer::new(inner);
    (f, c)
}

/// The consuming handle: it receives the value once, with a callback or by
/// sleeping for it.
#[verifier::reject_recursive_types(T)]
pub struct FutureVal<T> {
    inner: FutureImpl<T>,
}

impl<T: Send + 'static> FutureVal<T> {
    /// Creates a new FutureVal with the given core
    fn new(inner: FutureImpl<T>) -> (f: FutureVal<T>)
        ensures
            f.inner == inner,
    {
        FutureVal { inner }
    }

    /// Calls `cb` with the value: at once if it is there, else when the
    /// producer brings it. A producer that waits for interest is told first.
    pub fn receive<F>(self, cb: F) where F: FnOnce(FutureResult<T>) + Send + 'static
        requires
            forall|val: FutureResult<T>| cb.requires((val,)),
    {
        self.inner.receive(cb);
    }

    /// Sleeps until the value is there, and returns it. A producer that
    /// waits for interest is told first.
    pub fn take(self) -> FutureResult<T> {
        self.inner.take()
    }

    /// Returns the value if it is there, and the future back, unchanged,
    /// if not.
    pub fn try_take(self) -> (r: Result<FutureResult<T>, FutureVal<T>>)
        ensures
            r matches Err(f) ==> f == self,
    {
        match self.inner.try_take() {
            Ok(val) => Ok(val),
            Err(inner) => Err(FutureVal { inner }),
        }
    }

    /// As `take`, sleeping no longer than `timeout`. A future that is not
    /// complete by then is given up, which is a cancelation error.
    pub fn take_timed(self, timeout: Duration) -> FutureResult<T> {
        self.inner.take_timed(timeout)
    }

    /// Whether the value is there.
    pub fn is_complete(&self) -> bool {
        self.inner.is_complete()
    }

    /// Gives the future up: the producer sees a cancelation error when it
    /// next asks for interest, or now if it waits for it.
    pub fn cancel(self) {
        self.inner.cancel();
    }
}

/// The producing handle: it supplies the value once. Before that it can
/// wait, as often as it likes, for the consumer to show interest.
#[verifier::reject_recursive_types(T)]
pub struct Completer<T> {
    inner: FutureImpl<T>,
}

impl<T: Send + 'static> Completer<T> {
    /// Creates a new Completer with the given core
    fn new(inner: FutureImpl<T>) -> (c: Completer<T>)
        ensures
            c.inner == inner,
    {
        Completer { inner }
    }

    /// Whether this completer supplies the value of `f`: the two are
    /// handles to one state.
    pub closed spec fn completes(self, f: FutureVal<T>) -> bool {
        self.inner == f.inner
    }

    /// Supplies the value.
    pub fn complete(self, val: T) {
        self.inner.complete(val);
    }

    /// Ends the future with an execution error that `desc` describes.
    pub fn fail(self, desc: &'static str) {
        self.inner.fail(desc);
    }

    /// Supplies the value, or the error that ends the future in its place.
    pub fn resolve(self, val: FutureResult<T>) {
        self.inner.put(val);
    }

    /// Ends the future with a cancelation error.
    pub fn cancel(self) {
        self.inner.put(Err(FutureError::cancelation("canceled by producer")));
    }

    /// Calls `cb` with the completer once the consumer has shown interest:
    /// at once if it has, else from the consumer's own call. `cb` gets an
    /// error instead once the consumer has given the future up.
    pub fn receive<F>(self, cb: F) where F: FnOnce(FutureResult<Completer<T>>) + Send + 'static
        requires
            forall|c: FutureResult<Completer<T>>| cb.requires((c,)),
    {
        self.inner.completer_receive(cb);
    }

    /// Sleeps until the consumer has shown interest, and returns the
    /// completer; an error once the consumer has given the future up.
    pub fn take(self) -> (r: FutureResult<Completer<T>>)
        ensures
            r matches Ok(c) ==> c == self,
            r matches Err(e) ==> e == consumer_gone(),
    {
        self.inner.completer_take()
    }

    /// As `take`, sleeping no longer than `timeout`. A future whose
    /// consumer has shown no interest by then is canceled, which is a
    /// cancelation error on both sides.
    pub fn take_timed(self, timeout: Duration) -> (r: FutureResult<Completer<T>>)
        ensures
            r matches Ok(c) ==> c == self,
            r matches Err(e) ==> e.kind == FutureErrorKind::CancelationError,
    {
        self.inner.completer_take_timed(timeout)
    }

    /// Returns what `take` returns if the consumer waits or is gone, and
    /// the completer back if not.
    pub fn try_take(self) -> (r: Result<FutureResult<Completer<T>>, Completer<T>>)
        ensures
            r matches Ok(Ok(c)) ==> c == self,
            r matches Ok(Err(e)) ==> e == consumer_gone(),
            r matches Err(c) ==> c == self,
    {
        match self.inner.interest() {
            Some(Ok(_)) => Ok(Ok(self)),
            Some(Err(e)) => Ok(Err(e)),
            None => Err(self),
        }
    }
}

impl<T: Send + 'static> Future<T> for FutureVal<T> {
    fn receive<F>(self, cb: F) where F: FnOnce(FutureResult<T>) + Send + 'static {
        self.inner.receive(cb);
    }
}

impl<T: Send + 'static> SyncFuture<T> for FutureVal<T> {
    fn take(self) -> FutureResult<T> {
        self.inner.take()
    }

    fn take_timed(self, timeout: Duration) -> FutureResult<T> {
        self.inner.take_timed(timeout)
    }
}

impl<T: Send + 'static> super::sync::SyncFuture<FutureResult<T>> for FutureVal<T> {
    fn take(self) -> FutureResult<T> {
        self.inner.take()
    }

    fn try_take(self) -> (r: Result<FutureResult<T>, FutureVal<T>>)
        ensures
            r matches Err(f) ==> f == self,
    {
        FutureVal::try_take(self)
    }
}

impl<T: Send + 'static> Cancel for FutureVal<T> {
    fn cancel(self) {
        self.inner.cancel();
    }
}

// ===== Consumer interest future =====
impl<T: Send + 'static> Future<Completer<T>> for Completer<T> {
    fn receive<F>(self, cb: F) where F: FnOnce(FutureResult<Completer<T>>) + Send + 'static {
        self.inner.completer_receive(cb);
    }
}

impl<T: Send + 'static> SyncFuture<Completer<T>> for Completer<T> {
    fn take(self) -> (r: FutureResult<Completer<T>>)
        ensures
            r matches Ok(c) ==> c == self,
            r matches Err(e) ==> e == consumer_gone(),
    {
        self.inner.completer_take()
    }

    fn take_timed(self, timeout: Duration) -> (r: FutureResult<Completer<T>>)
        ensures
            r matches Ok(c) ==> c == self,
            r matches Err(e) ==> e.kind == FutureErrorKind::CancelationError,
    {
        self.inner.completer_take_timed(timeout)
    }
}

impl<T: Send + 'static> super::sync::SyncFuture<FutureResult<Completer<T>>> for Completer<T> {
    fn take(self) -> (r: FutureResult<Completer<T>>)
        ensures
            r matches Ok(c) ==> c == self,
            r matches Err(e) ==> e == consumer_gone(),
    {
        self.inner.completer_take()
    }

    fn try_take(self) -> (r: Result<FutureResult<Completer<T>>, Completer<T>>)
        ensures
            r matches Ok(Ok(c)) ==> c == self,
            r matches Ok(Err(e)) ==> e == consumer_gone(),
            r matches Err(c) ==> c == self,
    {
        Completer::try_take(self)
    }
}

impl<T: Send + 'static> Cancel for Completer<T> {
    fn cancel(self) {
        self.inner.put(Err(FutureError::cancelation("canceled by producer")));
    }
}

/// What the two handles share.
#[verifier::reject_recursive_types(T)]
struct Shared<T> {
    core: Mutex<Core<T>>,
    /// Where the side that sleeps waits for the other.
    condvar: Condvar,
}

#[verifier::reject_recursive_types(T)]
struct FutureImpl<T> {
    core: Arc<Shared<T>>,
}

impl<T: Send + 'static> FutureImpl<T> {
    fn new() -> FutureImpl<T> {
        FutureImpl { core: Arc::new(Shared { core: Mutex::new(Core::new()), condvar: Condvar::new() }) }
    }

    fn receive<F>(self, cb: F) where F: FnOnce(FutureResult<T>) + Send + 'static
        requires
            forall|val: FutureResult<T>| cb.requires((val,)),
    {
        // Acquire the lock
        let core = self.lock();
        // If the producer is currently waiting, notify it that the
        // consumer has indicated interest in the result.
        let mut core = self.notify_completer(core);
        // If the future has already been realized, the value goes to the
        // callback; else the callback is saved off for the producer.
        let action = guard_mut(&mut core).receive(Callback::new(cb));
        self.finish(core, action);
    }

    fn take(self) -> FutureResult<T> {
        // Acquire the lock
        let core = self.lock();
        // If the producer is currently waiting, notify it that the
        // consumer has indicated interest in the result.
        let core = self.notify_completer(core);
        // Check for the value and sleep until it is there
        let mut out: Option<FutureResult<T>> = None;
        let core = wait_while(&self.core.condvar, core, &mut out);
        unlock(core);
        out.unwrap()
    }

    fn take_timed(self, timeout: Duration) -> FutureResult<T> {
        let core = self.lock();
        let core = self.notify_completer(core);
        let mut out: Option<FutureResult<T>> = None;
        let mut core = wait_timeout_while(&self.core.condvar, core, timeout, &mut out);
        match out {
            Some(val) => {
                unlock(core);
                val
            },
            None => {
                // Nothing came in time: the future is given up
                let action = guard_mut(&mut core).cancel();
                self.finish(core, action);
                Err(FutureError::cancelation("timed out"))
            },
        }
    }

    fn try_take(self) -> (r: Result<FutureResult<T>, FutureImpl<T>>)
        ensures
            r matches Err(inner) ==> inner == self,
    {
        let val = {
            let mut core = self.lock();
            guard_mut(&mut core).take_value()
        };
        match val {
            Some(val) => Ok(val),
            None => Err(self),
        }
    }

    fn is_complete(&self) -> bool {
        let mut core = self.lock();
        guard_mut(&mut core).is_complete()
    }

    fn cancel(self) {
        let mut core = self.lock();
        let action = guard_mut(&mut core).cancel();
        self.finish(core, action);
    }

    fn complete(self, val: T) {
        self.put(Ok(val));
    }

    fn fail(self, desc: &'static str) {
        self.put(Err(FutureError::execution(desc)));
    }

    /// Brings the value or the error that ends the future.
    fn put(self, val: FutureResult<T>) {
        // Acquire the lock
        let mut core = self.lock();
        // A consumer that waits is notified: its callback is called with
        // the value once the lock is released, a sleeping one is woken.
        let action = guard_mut(&mut core).complete(val);
        self.finish(core, action);
    }

    fn completer_receive<F>(self, cb: F) where
        F: FnOnce(FutureResult<Completer<T>>) + Send + 'static,

        requires
            forall|c: FutureResult<Completer<T>>| cb.requires((c,)),
    {
        // The callback gets a completer of its own over the same core
        let inner = self.clone();
        let interested = move |interest: FutureResult<()>|
            requires
                forall|c: FutureResult<Completer<T>>| cb.requires((c,)),
            {
                match interest {
                    Ok(_) => cb(Ok(Completer::new(inner))),
                    Err(e) => cb(Err(e)),
                }
            };
        // Acquire the lock
        let mut core = self.lock();
        // If the consumer has not registered an interest yet, the
        // callback is saved off for when it does. Else it is called once
        // the lock is released.
        let action = guard_mut(&mut core).completer_receive(Callback::new(interested));
        self.finish(core, action);
    }

    fn completer_take(self) -> (r: FutureResult<Completer<T>>)
        ensures
            r matches Ok(c) ==> c.inner == self,
            r matches Err(e) ==> e == consumer_gone(),
    {
        let mut out = Awaited { registered: false, outcome: None };
        {
            // Acquire the lock
            let core = self.lock();
            // If the consumer has not registered an interest yet, sleep
            // until it has.
            let core = wait_while(&self.core.condvar, core, &mut out);
            unlock(core);
        }
        match out.outcome.unwrap() {
            // Return the completer (simply wrap the FutureImpl instance)
            Interest::Shown => Ok(Completer::new(self)),
            Interest::Gone => Err(gone()),
        }
    }

    fn completer_take_timed(self, timeout: Duration) -> (r: FutureResult<Completer<T>>)
        ensures
            r matches Ok(c) ==> c.inner == self,
            r matches Err(e) ==> e.kind == FutureErrorKind::CancelationError,
    {
        let mut out = Awaited { registered: false, outcome: None };
        let core = self.lock();
        let mut core = wait_timeout_while(&self.core.condvar, core, timeout, &mut out);
        match out.outcome {
            Some(Interest::Shown) => {
                unlock(core);
                Ok(Completer::new(self))
            },
            Some(Interest::Gone) => {
                unlock(core);
                Err(gone())
            },
            None => {
                // No interest in time: the future is canceled
                let e = FutureError::cancelation("timed out");
                let action = guard_mut(&mut core).complete(Err(e));
                self.finish(core, action);
                Err(e)
            },
        }
    }

    fn interest(&self) -> (shown: Option<FutureResult<()>>)
        ensures
            shown matches Some(Err(e)) ==> e == consumer_gone(),
    {
        let mut core = self.lock();
        guard_mut(&mut core).interest()
    }

    /// Tells a producer that waits for interest that the consumer is
    /// there. The callback may ask for interest again, in which case it is
    /// called again from here, not from inside itself.
    fn notify_completer<'a>(&'a self, core: MutexGuard<'a, Core<T>>) -> MutexGuard<'a, Core<T>> {
        let mut core = core;
        let mut left: usize = MAX_NOTICES;
        while left > 0
            decreases left,
        {
            left = left - 1;
            let action = guard_mut(&mut core).notice();
            match action {
                Notify::Invoke(cb, interest) => {
                    unlock(core);
                    cb.call(interest);
                    core = self.lock();
                },
                Notify::Signal => {
                    self.core.condvar.notify_one();
                    return core;
                },
                Notify::Nothing => {
                    return core;
                },
            }
        }
        core
    }

    /// Releases the lock and carries out what a transition left to do.
    fn finish<'a, A>(&'a self, core: MutexGuard<'a, Core<T>>, action: Notify<A>) {
        match action {
            Notify::Invoke(cb, arg) => {
                // Drop the lock before invoking the callback (prevent
                // deadlocks).
                unlock(core);
                cb.call(arg);
            },
            Notify::Signal => {
                self.core.condvar.notify_one();
                unlock(core);
            },
            Notify::Nothing => {
                unlock(core);
            },
        }
    }

    fn lock<'a>(&'a self) -> MutexGuard<'a, Core<T>> {
        lock(&self.core.core)
    }

    /// Another handle to the same state.
    fn clone(&self) -> (other: FutureImpl<T>)
        ensures
            other == *self,
    {
        FutureImpl { core: self.core.clone() }
    }
}

} // verus!
