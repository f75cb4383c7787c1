//! The standard mutex, condition variable and fence, as far as this crate
//! uses them.
//!
//! Nothing here is proved: these items state what the standard library
//! documents. A poisoned mutex is fatal to the process, so every function
//! below that can meet one ends the thread instead of returning.

use std::sync::atomic::{fence, Ordering};
use std::sync::{Condvar, Mutex, MutexGuard};
use std::time::Duration;
use vstd::prelude::*;

verus! {

/// `std::sync::Mutex`, as an opaque type: a mutex shows nothing of the state
/// that it guards.
#[verifier::external_type_specification]
#[verifier::external_body]
#[verifier::reject_recursive_types(T)]
pub struct ExMutex<T: ?Sized>(Mutex<T>);

/// `std::sync::MutexGuard`, as an opaque type: the lock, while it is held.
#[verifier::external_type_specification]
#[verifier::external_body]
#[verifier::reject_recursive_types(T)]
pub struct ExMutexGuard<'a, T: ?Sized + 'a>(MutexGuard<'a, T>);

/// `std::sync::Condvar`, as an opaque type.
#[verifier::external_type_specification]
#[verifier::external_body]
pub struct ExCondvar(Condvar);

/// `Mutex::new`: a mutex that guards `t`. A mutex shows nothing of what it
/// guards, so nothing is stated of the result.
pub assume_specification<T>[ Mutex::<T>::new ](t: T) -> (m: Mutex<T>);

/// `Condvar::new`: a condition variable that no thread waits on.
pub assume_specification[ Condvar::new ]() -> (c: Condvar);

/// `Condvar::notify_one`: wakes one thread that waits on `cv`, if there is one.
pub assume_specification[ Condvar::notify_one ](cv: &Condvar);

/// `fence`: orders the memory accesses around it. It panics on `Relaxed`.
pub assume_specification[ fence ](order: Ordering)
    requires
        !(order is Relaxed),
;

/// One try at an operation on a locked state that may have to wait for
/// another thread. A try either carries the operation out and leaves its
/// outcome in `out`, or asks to be repeated after the next wake-up.
pub trait Attempt<Out> {
    /// Whether `out` holds the outcome of a try that was carried out.
    spec fn done(out: Out) -> bool;

    fn attempt(&mut self, out: &mut Out) -> (again: bool)
        requires
            !Self::done(*old(out)),
        ensures
            again == !Self::done(*final(out)),
    ;
}

/// `Mutex::lock`: blocks until the mutex is acquired. The guard says nothing
/// of the state behind it: another thread may have left any state there. A
/// thread that holds the mutex does not come back from a second `lock`: the
/// callers in this crate give their guard up before they lock again.
#[verifier::external_body]
pub(crate) fn lock<'a, T>(m: &'a Mutex<T>) -> (g: MutexGuard<'a, T>) {
    m.lock().expect("poisoned lock")
}

/// `DerefMut::deref_mut` of a guard: the state behind the lock.
#[verifier::external_body]
pub(crate) fn guard_mut<'a, 'b, T>(g: &'a mut MutexGuard<'b, T>) -> (state: &'a mut T) {
    &mut **g
}

/// `Condvar::wait`: gives the lock up, sleeps until a notification or a
/// spurious wake-up, and takes the lock again.
#[verifier::external_body]
pub(crate) fn wait<'a, T>(cv: &Condvar, g: MutexGuard<'a, T>) -> (r: MutexGuard<'a, T>) {
    cv.wait(g).expect("poisoned lock")
}

/// `Condvar::wait_timeout`: as `wait`, for at most `secs` seconds and `nanos`
/// nanoseconds. `Duration::new` panics when the nanoseconds carry past the
/// largest number of seconds, which a count below one second cannot do.
#[verifier::external_body]
pub(crate) fn wait_timeout<'a, T>(cv: &Condvar, g: MutexGuard<'a, T>, secs: u64, nanos: u32) -> (r:
    MutexGuard<'a, T>)
    requires
        nanos < 1_000_000_000,
{
    cv.wait_timeout(g, Duration::new(secs, nanos)).expect("poisoned lock").0
}

/// `Condvar::wait_while`: repeats `attempt` on the locked state, sleeping on
/// `cv` between two tries, and returns after the first try that did not ask
/// for another. That try was carried out, so `out` holds its outcome.
#[verifier::external_body]
pub(crate) fn wait_while<'a, S: Attempt<Out>, Out>(
    cv: &Condvar,
    g: MutexGuard<'a, S>,
    out: &mut Out,
) -> (r: MutexGuard<'a, S>)
    requires
        !S::done(*old(out)),
    ensures
        S::done(*final(out)),
{
    cv.wait_while(g, |s| s.attempt(out)).expect("poisoned lock")
}

/// `Condvar::wait_timeout_while`: as `wait_while`, but it also returns once
/// `timeout` has passed, whatever the last try asked for. So nothing is
/// stated of `out`: the caller looks at it.
#[verifier::external_body]
pub(crate) fn wait_timeout_while<'a, S: Attempt<Out>, Out>(
    cv: &Condvar,
    g: MutexGuard<'a, S>,
    timeout: Duration,
    out: &mut Out,
) -> (r: MutexGuard<'a, S>)
    requires
        !S::done(*old(out)),
{
    cv.wait_timeout_while(g, timeout, |s| s.attempt(out)).expect("poisoned lock").0
}

/// Gives the lock up: the guard ends here.
pub(crate) fn unlock<'a, T>(g: MutexGuard<'a, T>) {
}

} // verus!
