//! A thread parker: one thread sleeps in `park` until another calls `unpark`.
//! A permit of one bit absorbs an `unpark` that comes first.

use super::lock::{lock, unlock, wait, wait_timeout};
use std::sync::atomic::{AtomicUsize, Ordering};
use std::sync::{Condvar, Mutex, MutexGuard};
use vstd::prelude::*;

verus! {

/// The longest wait, in whole seconds.
pub const MAX_WAIT: usize = 1_000_000;

pub const MS_PER_SEC: usize = 1_000;

pub const NANOS_PER_MS: usize = 1_000_000;

pub const NANOS_PER_SEC: usize = 1_000_000_000;

/// A point in time: seconds since the epoch, and the nanoseconds past that
/// second.
#[derive(Debug, Clone, Copy, PartialEq, Eq, Structural)]
pub struct Timespec {
    pub sec: i64,
    pub nsec: i32,
}

impl Timespec {
    /// The nanoseconds lie within one second.
    pub open spec fn wf(self) -> bool {
        0 <= self.nsec < 1_000_000_000
    }

    /// The point in time as nanoseconds since the epoch.
    pub open spec fn nanos(self) -> int {
        self.sec * 1_000_000_000 + self.nsec
    }
}

/// The length of a wait of `ms` milliseconds, in nanoseconds: its whole
/// seconds are capped at `MAX_WAIT`.
pub open spec fn wait_nanos(ms: usize) -> int {
    let sec = if ms / 1_000 > 1_000_000 { 1_000_000 } else { ms as int / 1_000 };
    sec * 1_000_000_000 + (ms % 1_000) * 1_000_000
}

/// The point in time `ms` milliseconds after `now`, the seconds saturating
/// at the largest `i64`.
pub open spec fn deadline(now: Timespec, ms: usize) -> Timespec {
    let total = now.nanos() + wait_nanos(ms);
    let sec = total / 1_000_000_000;
    Timespec {
        sec: if sec > i64::MAX { i64::MAX } else { sec as i64 },
        nsec: (total % 1_000_000_000) as i32,
    }
}

/// The time from `now` until `until` as whole seconds and nanoseconds, zero
/// where `until` has passed.
pub open spec fn time_left(until: Timespec, now: Timespec) -> (u64, u32) {
    let left = until.nanos() - now.nanos();
    if left <= 0 {
        (0, 0)
    } else {
        ((left / 1_000_000_000) as u64, (left % 1_000_000_000) as u32)
    }
}

/// The parker. Only one thread parks on it; any thread may unpark it.
pub struct Park {
    /// 1 while an `unpark` has not been consumed, 0 otherwise.
    state: AtomicUsize,
    mutex: Mutex<()>,
    condvar: Condvar,
}

impl Park {
    pub fn new() -> Park {
        Park { state: AtomicUsize::new(0), mutex: Mutex::new(()), condvar: Condvar::new() }
    }

    /// Parks the thread until another thread calls `unpark`, or a wake-up
    /// without cause. Returns at once if an `unpark` came first.
    pub fn park(&self) {
        self.park_ms(0);
    }

    /// As `park`, but for at most `timeout_ms` milliseconds; a timeout of
    /// zero waits without limit.
    pub fn park_ms(&self, timeout_ms: usize) {
        // Fast path: a pending unpark is consumed without sleeping.
        if self.consume() {
            return ;
        }
        let guard = self.lock();
        // In the critical section, check the permit again before blocking:
        // an unpark that came since the first check can no longer signal a
        // thread that is not yet waiting.
        if self.consume() {
            self.unlock(guard);
            return ;
        }
        let guard = if timeout_ms == 0 {
            self.wait(guard)
        } else {
            self.timed_wait(guard, timeout_ms)
        };
        // Whatever ended the wait, the permit is taken to be consumed.
        self.state.store(0, Ordering::Relaxed);
        self.unlock(guard);
    }

    /// Sets the permit. A parked thread is woken; if none is parked, the
    /// permit is kept for the next `park`.
    pub fn unpark(&self) {
        if self.state.swap(1, Ordering::Relaxed) == 0 {
            // Taking the lock makes sure that a parking thread that has
            // entered its critical section has reached the wait before the
            // signal is sent.
            let guard = self.lock();
            self.signal();
            self.unlock(guard);
        }
    }

    /// Takes the permit if it is set, and says whether it was.
    fn consume(&self) -> bool {
        self.state.compare_exchange(1, 0, Ordering::Relaxed, Ordering::Relaxed).is_ok()
    }

    fn lock<'a>(&'a self) -> MutexGuard<'a, ()> {
        lock(&self.mutex)
    }

    fn unlock<'a>(&'a self, guard: MutexGuard<'a, ()>) {
        unlock(guard)
    }

    fn signal(&self) {
        self.condvar.notify_one()
    }

    fn wait<'a>(&'a self, guard: MutexGuard<'a, ()>) -> MutexGuard<'a, ()> {
        wait(&self.condvar, guard)
    }

    /// Waits for a signal, for at most `ms` milliseconds.
    fn timed_wait<'a>(&'a self, guard: MutexGuard<'a, ()>, ms: usize) -> MutexGuard<'a, ()> {
        let ts = ms_to_abs(ms);
        self.wait_until(guard, ts)
    }

    /// Waits for a signal, but not past the point in time `until`.
    fn wait_until<'a>(&'a self, guard: MutexGuard<'a, ()>, until: Timespec) -> MutexGuard<'a, ()>
        requires
            until.wf(),
    {
        let (secs, nanos) = remaining(until, now());
        wait_timeout(&self.condvar, guard, secs, nanos)
    }
}

/// A wait of `ms` milliseconds is over no later than `ms` milliseconds
/// after it began; short of the largest second it is over exactly the
/// wait's length after it began, which is `ms` milliseconds up to the cap.
pub proof fn lemma_deadline_within(now: Timespec, ms: usize)
    requires
        now.wf(),
    ensures
        0 <= wait_nanos(ms) <= ms * 1_000_000,
        ms / 1_000 <= MAX_WAIT ==> wait_nanos(ms) == ms * 1_000_000,
        deadline(now, ms).wf(),
        deadline(now, ms).nanos() <= now.nanos() + ms * 1_000_000,
        now.sec + 1_000_001 <= i64::MAX ==> deadline(now, ms).nanos() == now.nanos() + wait_nanos(
            ms,
        ),
{
    let sec: int = if ms / 1_000 > 1_000_000 {
        1_000_000
    } else {
        ms as int / 1_000
    };
    assert(ms == (ms / 1_000) * 1_000 + ms % 1_000);
    assert(wait_nanos(ms) == sec * 1_000_000_000 + (ms % 1_000) * 1_000_000);
    assert(sec * 1_000_000_000 + (ms % 1_000) * 1_000_000 <= ms * 1_000_000) by (nonlinear_arith)
        requires
            0 <= sec <= ms / 1_000,
            ms == (ms / 1_000) * 1_000 + ms % 1_000,
    ;
    let total = now.nanos() + wait_nanos(ms);
    let q = total / 1_000_000_000;
    let r = total % 1_000_000_000;
    assert(total == q * 1_000_000_000 + r && 0 <= r < 1_000_000_000) by (nonlinear_arith)
        requires
            q == total / 1_000_000_000,
            r == total % 1_000_000_000,
    ;
    assert(q >= now.sec && q <= now.sec + sec + 1) by (nonlinear_arith)
        requires
            total == q * 1_000_000_000 + r,
            0 <= r < 1_000_000_000,
            total == now.sec * 1_000_000_000 + now.nsec + wait_nanos(ms),
            0 <= now.nsec < 1_000_000_000,
            0 <= wait_nanos(ms) < (sec + 1) * 1_000_000_000,
    ;
    let d = deadline(now, ms);
    assert(d.nsec == r);
    assert(d.sec <= q);
    assert(d.nanos() <= total) by (nonlinear_arith)
        requires
            d.nanos() == d.sec * 1_000_000_000 + r,
            total == q * 1_000_000_000 + r,
            d.sec <= q,
    ;
}

/// The time that is left until a point in time is the difference of the
/// two points, and nothing once the point has passed.
pub proof fn lemma_time_left(until: Timespec, now: Timespec)
    requires
        until.wf(),
        now.wf(),
    ensures
        time_left(until, now).1 < 1_000_000_000,
        until.nanos() > now.nanos() ==> time_left(until, now).0 * 1_000_000_000 + time_left(
            until,
            now,
        ).1 == until.nanos() - now.nanos(),
        until.nanos() <= now.nanos() ==> time_left(until, now) == (0u64, 0u32),
{
    let left = until.nanos() - now.nanos();
    if left > 0 {
        let q = left / 1_000_000_000;
        let r = left % 1_000_000_000;
        assert(left == q * 1_000_000_000 + r && 0 <= r < 1_000_000_000) by (nonlinear_arith)
            requires
                q == left / 1_000_000_000,
                r == left % 1_000_000_000,
        ;
        assert(0 <= q <= until.sec - now.sec) by (nonlinear_arith)
            requires
                left == q * 1_000_000_000 + r,
                0 <= r < 1_000_000_000,
                left > 0,
                left == (until.sec - now.sec) * 1_000_000_000 + (until.nsec - now.nsec),
                -1_000_000_000 < until.nsec - now.nsec < 1_000_000_000,
        ;
    }
}

/// `time::get_time`: the current time. The clock decides the value; the
/// nanoseconds always lie within one second.
#[verifier::external_body]
fn now() -> (t: Timespec)
    ensures
        t.wf(),
{
    let t = time::get_time();
    Timespec { sec: t.sec, nsec: t.nsec }
}

/// The point in time `ms` milliseconds after `now`.
pub fn deadline_after(now: Timespec, ms: usize) -> (t: Timespec)
    requires
        now.wf(),
    ensures
        t == deadline(now, ms),
        t.wf(),
{
    let mut sec: usize = ms / MS_PER_SEC;
    let nsec: usize = (ms % MS_PER_SEC) * NANOS_PER_MS;
    if sec > MAX_WAIT {
        sec = MAX_WAIT;
    }
    let mut carry: i64 = 0;
    let mut ts_nsec: i64 = now.nsec as i64 + nsec as i64;
    if ts_nsec >= NANOS_PER_SEC as i64 {
        carry = 1;
        ts_nsec = ts_nsec - NANOS_PER_SEC as i64;
    }
    let add: i64 = sec as i64 + carry;
    let ts_sec: i64 = if now.sec > i64::MAX - add {
        i64::MAX
    } else {
        now.sec + add
    };
    assert(now.nanos() + wait_nanos(ms) == (now.sec + add) * 1_000_000_000 + ts_nsec) by (nonlinear_arith)
        requires
            add == sec + carry,
            ts_nsec == now.nsec + nsec - carry * 1_000_000_000,
            wait_nanos(ms) == sec * 1_000_000_000 + nsec,
    ;
    assert((now.nanos() + wait_nanos(ms)) / 1_000_000_000 == now.sec + add
        && (now.nanos() + wait_nanos(ms)) % 1_000_000_000 == ts_nsec) by (nonlinear_arith)
        requires
            now.nanos() + wait_nanos(ms) == (now.sec + add) * 1_000_000_000 + ts_nsec,
            0 <= ts_nsec < 1_000_000_000,
    ;
    Timespec { sec: ts_sec, nsec: ts_nsec as i32 }
}

/// The time from `now` until `until`, zero where `until` has passed.
pub fn remaining(until: Timespec, now: Timespec) -> (left: (u64, u32))
    requires
        until.wf(),
        now.wf(),
    ensures
        left == time_left(until, now),
        left.1 < 1_000_000_000,
{
    if until.sec < now.sec || (until.sec == now.sec && until.nsec <= now.nsec) {
        return (0, 0);
    }
    let mut secs: u64 = sec_diff(until.sec, now.sec);
    let mut nanos: i32 = until.nsec - now.nsec;
    if nanos < 0 {
        secs = secs - 1;
        nanos = nanos + 1_000_000_000;
    }
    let ghost left = until.nanos() - now.nanos();
    assert(left == secs * 1_000_000_000 + nanos) by (nonlinear_arith)
        requires
            left == (until.sec - now.sec) * 1_000_000_000 + (until.nsec - now.nsec),
            secs * 1_000_000_000 + nanos == (until.sec - now.sec) * 1_000_000_000 + (until.nsec
                - now.nsec),
    ;
    assert(left / 1_000_000_000 == secs && left % 1_000_000_000 == nanos) by (nonlinear_arith)
        requires
            left == secs * 1_000_000_000 + nanos,
            0 <= nanos < 1_000_000_000,
    ;
    (secs, nanos as u32)
}

/// The seconds from `earlier` to `later`.
fn sec_diff(later: i64, earlier: i64) -> (d: u64)
    requires
        earlier <= later,
    ensures
        d == later - earlier,
{
    if earlier >= 0 || later < 0 {
        (later - earlier) as u64
    } else {
        // earlier < 0 <= later
        let below: u64 = if earlier == i64::MIN {
            9_223_372_036_854_775_808
        } else {
            (-earlier) as u64
        };
        later as u64 + below
    }
}

/// The absolute time at which a wait of `ms` milliseconds that starts now
/// is over.
pub fn ms_to_abs(ms: usize) -> (t: Timespec)
    ensures
        t.wf(),
        exists|start: Timespec| start.wf() && t == deadline(start, ms),
{
    let start = now();
    deadline_after(start, ms)
}

} // verus!
