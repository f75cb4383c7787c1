//! A future and its completer over one atomic state word and a parker.
//!
//! The word holds the future's state, whether the consumer sleeps, and the
//! number of handles that are still at work. The value waits in a slot of
//! its own until the word says that it is there.

pub mod state;

use self::state::{
    as_consumed, as_wait_sync, is_canceled, is_complete, is_wait_sync, is_waiting, phase,
    ref_count, waiting, word, CANCELED, COMPLETE, CONSUMED, INITIAL, ONE_REF,
};
use super::future::{FutureError, FutureErrorKind, FutureResult};
use crate::sync::lock::{guard_mut, lock};
use crate::sync::park::Park;
use std::sync::atomic::{fence, AtomicUsize, Ordering};
use std::sync::{Arc, Mutex};
use vstd::prelude::*;

verus! {

/// How often a consumer that sleeps for the value looks at the state word
/// again before it gives the wait up.
pub const MAX_PARKS: usize = usize::MAX;

/// What a consumer that wants the value does next.
#[derive(Debug, Clone, Copy, PartialEq, Eq, Structural)]
pub enum TakeStep {
    /// The value is there: swap this word in and take the value.
    Consume(usize),
    /// The producer has canceled: there will be no value.
    Canceled,
    /// Swap this word in, which says that the consumer sleeps, then park.
    Announce(usize),
    /// The word says already that the consumer sleeps: park.
    Park,
}

/// What a consumer that wants the value does next when the state word is
/// `old`.
pub open spec fn take_step(old: usize) -> TakeStep {
    if phase(old) == COMPLETE {
        TakeStep::Consume(word(ref_count(old), waiting(old), CONSUMED as int) as usize)
    } else if phase(old) == CANCELED {
        TakeStep::Canceled
    } else if waiting(old) != 1 {
        TakeStep::Announce(word(ref_count(old), 1, phase(old)) as usize)
    } else {
        TakeStep::Park
    }
}

pub fn next_take(old: usize) -> (step: TakeStep)
    ensures
        step == take_step(old),
{
    // The future has already been completed, no need to wait
    if is_complete(old) {
        TakeStep::Consume(as_consumed(old))
    } else if is_canceled(old) {
        TakeStep::Canceled
    } else if !is_wait_sync(old) {
        TakeStep::Announce(as_wait_sync(old))
    } else {
        TakeStep::Park
    }
}

/// A value that is there is taken once: the word that the consumer swaps in
/// says that the value is consumed, and keeps the rest; a consumer that
/// found that word would not take the value again.
pub proof fn lemma_take_consumes_once(old: usize)
    requires
        phase(old) == COMPLETE,
    ensures
        take_step(old) matches TakeStep::Consume(new) && phase(new) == CONSUMED && waiting(new)
            == waiting(old) && ref_count(new) == ref_count(old) && !(take_step(
            new,
        ) is Consume),
{
}

/// A consumer that finds neither a value nor a cancelation says once that
/// it sleeps, and keeps the rest of the word; from then on it parks.
pub proof fn lemma_take_announces_once(old: usize)
    requires
        phase(old) != COMPLETE,
        phase(old) != CANCELED,
    ensures
        waiting(old) != 1 ==> (take_step(old) matches TakeStep::Announce(new) && phase(new)
            == phase(old) && waiting(new) == 1 && ref_count(new) == ref_count(old) && take_step(
            new,
        ) == TakeStep::Park),
        waiting(old) == 1 ==> take_step(old) == TakeStep::Park,
{
}

/// Whether the handle that found `old` when it left was the last one.
pub fn is_last(old: usize) -> (b: bool)
    ensures
        b == (ref_count(old) <= 1),
{
    assert(old >> 8 == old / 256) by (bit_vector);
    (old >> 8) <= 1
}

/// The number of handles in `state`.
pub fn handles(state: usize) -> (n: usize)
    ensures
        n == ref_count(state),
{
    assert(state >> 8 == state / 256) by (bit_vector);
    state >> 8
}

/// A future and the completer that supplies its value: the two are handles
/// to one state.
pub fn pair<T>() -> (pair: (PairedFuture<T>, Completer<T>))
    ensures
        pair.1.completes(pair.0),
{
    let core = Arc::new(Core::new());
    let f = PairedFuture { core: core.clone() };
    let c = Completer { core };
    (f, c)
}

/// The consuming handle.
#[verifier::reject_recursive_types(T)]
pub struct PairedFuture<T> {
    core: Arc<Core<T>>,
}

impl<T> PairedFuture<T> {
    /// Sleeps until the value is there, and returns it; a cancelation
    /// error once the producer has canceled.
    pub fn take(self) -> (r: FutureResult<T>)
        ensures
            r matches Err(e) ==> e.kind == FutureErrorKind::CancelationError,
    {
        let val = self.core.take();
        release(&self.core);
        val
    }

    /// The number of handles that are still at work: the count in the
    /// state word as it stood at some moment of the call.
    pub fn ref_count(&self) -> (n: usize)
        ensures
            exists|word: usize| n == ref_count(word),
    {
        self.core.ref_count()
    }
}

/// The producing handle.
#[verifier::reject_recursive_types(T)]
pub struct Completer<T> {
    core: Arc<Core<T>>,
}

impl<T> Completer<T> {
    /// Supplies the value and wakes a consumer that sleeps for it.
    pub fn complete(self, value: T) {
        self.core.complete(value);
        release(&self.core);
    }

    /// Ends the future without a value and wakes a consumer that sleeps
    /// for one.
    pub fn cancel(self) {
        self.core.cancel();
        release(&self.core);
    }

    /// The number of handles that are still at work: the count in the
    /// state word as it stood at some moment of the call.
    pub fn ref_count(&self) -> (n: usize)
        ensures
            exists|word: usize| n == ref_count(word),
    {
        self.core.ref_count()
    }

    /// Whether this completer supplies the value of `f`: the two are
    /// handles to one state.
    pub closed spec fn completes(self, f: PairedFuture<T>) -> bool {
        self.core == f.core
    }
}

/// A handle leaves. The last one drops a value that nobody has taken.
fn release<T>(core: &Core<T>) {
    // Decrement the ref count
    let old = core.state.fetch_sub(ONE_REF, Ordering::Release);
    // There are still outstanding references
    if !is_last(old) {
        return ;
    }
    if is_complete(old) {
        // Acquire any possible changes to the value
        fence(Ordering::Acquire);
        // Drop the value
        let _ = core.move_val();
    }
}

// ===== Core =====
#[verifier::reject_recursive_types(T)]
struct Core<T> {
    /// The state word, see the module `state`.
    state: AtomicUsize,
    value: Mutex<Option<T>>,
    wait: Park,
}

impl<T> Core<T> {
    fn new() -> Core<T> {
        Core { state: AtomicUsize::new(INITIAL), value: Mutex::new(None), wait: Park::new() }
    }

    fn take(&self) -> (r: FutureResult<T>)
        ensures
            r matches Err(e) ==> e.kind == FutureErrorKind::CancelationError,
    {
        let mut left: usize = MAX_PARKS;
        while left > 0
            decreases left,
        {
            left = left - 1;
            let old = self.state.load(Ordering::Acquire);
            match next_take(old) {
                TakeStep::Consume(new) => {
                    if self.swap_in(old, new) {
                        return match self.move_val() {
                            Some(val) => Ok(val),
                            None => Err(FutureError::cancelation("no value")),
                        };
                    }
                },
                TakeStep::Canceled => {
                    return Err(FutureError::cancelation("canceled by producer"));
                },
                TakeStep::Announce(new) => {
                    if self.swap_in(old, new) {
                        self.parker().park();
                    }
                },
                TakeStep::Park => {
                    self.parker().park();
                },
            }
        }
        Err(FutureError::cancelation("wait given up"))
    }

    /// Completes the future with the given value. This expects, but does
    /// not check, that the current future state is pending.
    fn complete(&self, value: T) {
        // Set the value of the future
        {
            let mut slot = lock(&self.value);
            *guard_mut(&mut slot) = Some(value);
        }
        // Update the state to indicate that the future has been completed
        let prev = self.state.fetch_add(COMPLETE, Ordering::Release);
        // Check for a wait strategy. If one is set, the consuming side is
        // waiting for the value.
        if is_waiting(prev) {
            self.parker().unpark();
        }
    }

    fn cancel(&self) {
        let prev = self.state.fetch_add(CANCELED, Ordering::Relaxed);
        if is_waiting(prev) {
            self.parker().unpark();
        }
    }

    /// Takes the value out of its slot.
    fn move_val(&self) -> Option<T> {
        let mut slot = lock(&self.value);
        guard_mut(&mut slot).take()
    }

    fn parker(&self) -> (park: &Park)
        ensures
            *park == self.wait,
    {
        &self.wait
    }

    fn ref_count(&self) -> (n: usize)
        ensures
            exists|word: usize| n == ref_count(word),
    {
        let state = self.state.load(Ordering::Relaxed);
        handles(state)
    }

    /// Puts `new` in the place of `old`, unless the word has changed.
    fn swap_in(&self, old: usize, new: usize) -> bool {
        self.state.compare_exchange(old, new, Ordering::Relaxed, Ordering::Relaxed).is_ok()
    }
}

} // verus!
