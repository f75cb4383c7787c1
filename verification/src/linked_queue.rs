//! A bounded blocking queue, shared by any number of producers and consumers.
//!
//! The items live in a `QueueState`, a sequential queue with exact contracts.
//! `LinkedQueue` puts one mutex and two condition variables around it: `put`
//! sleeps while the queue is full, `take` while it is empty.

use crate::sync::lock::{guard_mut, lock, unlock, wait_while, Attempt};
use std::collections::VecDeque;
use std::sync::atomic::{fence, AtomicUsize, Ordering};
use std::sync::{Arc, Condvar, Mutex};
use vstd::prelude::*;

verus! {

/// The items of a queue in the order in which they leave, and the bound on
/// their number.
pub struct QueueState<T> {
    items: VecDeque<T>,
    capacity: usize,
}

/// An item on its way into a queue.
pub struct Put<T> {
    /// The item, until the queue has taken it.
    pub item: Option<T>,
    /// Whether the queue had room left once it had taken the item.
    pub room: bool,
}

/// An item on its way out of a queue.
pub struct Taken<T> {
    /// The item, once the queue has given it.
    pub item: Option<T>,
    /// Whether the queue held more items once it had given this one.
    pub more: bool,
    /// Whether the queue was full before it gave the item.
    pub was_full: bool,
}

/// The items of a queue after an offer of `e`, and what the offer returns:
/// a queue with room takes `e` at its end, a full one hands it back.
pub open spec fn offered<T>(items: Seq<T>, capacity: usize, e: T) -> (Seq<T>, Result<(), T>) {
    if items.len() < capacity {
        (items.push(e), Ok(()))
    } else {
        (items, Err(e))
    }
}

/// The items of a queue after a poll, and what the poll returns: the first
/// item leaves, if there is one.
pub open spec fn polled<T>(items: Seq<T>) -> (Seq<T>, Option<T>) {
    if items.len() > 0 {
        (items.drop_first(), Some(items[0]))
    } else {
        (items, None)
    }
}

/// One call on a queue.
pub enum QueueOp<T> {
    Offer(T),
    Poll,
}

/// What a series of calls has done to a queue: the items that it took, the
/// items that it gave, each in the order of the calls, and the items that
/// it holds.
pub struct Trace<T> {
    pub taken: Seq<T>,
    pub given: Seq<T>,
    pub held: Seq<T>,
}

/// What the calls `ops`, made one after the other, do to an empty queue of
/// the given capacity.
pub open spec fn traced<T>(capacity: usize, ops: Seq<QueueOp<T>>) -> Trace<T>
    decreases ops.len(),
{
    if ops.len() == 0 {
        Trace { taken: Seq::empty(), given: Seq::empty(), held: Seq::empty() }
    } else {
        let before = traced(capacity, ops.drop_last());
        match ops.last() {
            QueueOp::Offer(e) => {
                let (held, r) = offered(before.held, capacity, e);
                Trace {
                    taken: if r is Ok {
                        before.taken.push(e)
                    } else {
                        before.taken
                    },
                    given: before.given,
                    held,
                }
            },
            QueueOp::Poll => {
                let (held, r) = polled(before.held);
                Trace {
                    taken: before.taken,
                    given: match r {
                        Some(e) => before.given.push(e),
                        None => before.given,
                    },
                    held,
                }
            },
        }
    }
}

/// First in, first out, and never over the bound: whatever calls are made
/// and in whatever order, the items that a queue has given followed by
/// those that it holds are the items that it took, in the order in which it
/// took them; and it holds no more than its capacity.
pub proof fn lemma_fifo<T>(capacity: usize, ops: Seq<QueueOp<T>>)
    ensures
        traced(capacity, ops).taken == traced(capacity, ops).given + traced(capacity, ops).held,
        traced(capacity, ops).held.len() <= capacity,
    decreases ops.len(),
{
    if ops.len() > 0 {
        lemma_fifo(capacity, ops.drop_last());
    }
    let after = traced(capacity, ops);
    assert(after.taken =~= after.given + after.held);
}

/// A queue that took `items`, and gave nothing since, gives them back in
/// their order: the next poll returns the first of them.
pub proof fn lemma_first_in_first_out<T>(items: Seq<T>, capacity: usize, e: T)
    requires
        0 < items.len() < capacity,
    ensures
        polled(offered(items, capacity, e).0) == (items.drop_first().push(e), Some(items[0])),
{
    assert(items.push(e).drop_first() =~= items.drop_first().push(e));
}

impl<T> QueueState<T> {
    #[verifier::type_invariant]
    spec fn bounded(self) -> bool {
        self.items@.len() <= self.capacity
    }

    /// The items, the next to leave first.
    pub closed spec fn view(&self) -> Seq<T> {
        self.items@
    }

    /// The largest number of items that the queue holds at one time.
    pub closed spec fn capacity(&self) -> usize {
        self.capacity
    }

    pub fn new(capacity: usize) -> (q: QueueState<T>)
        ensures
            q@ == Seq::<T>::empty(),
            q.capacity() == capacity,
    {
        QueueState { items: VecDeque::new(), capacity }
    }

    pub fn len(&self) -> (n: usize)
        ensures
            n == self@.len(),
            n <= self.capacity(),
    {
        proof {
            use_type_invariant(self);
        }
        self.items.len()
    }

    pub fn is_empty(&self) -> (b: bool)
        ensures
            b == (self@.len() == 0),
    {
        self.items.len() == 0
    }

    pub fn is_full(&self) -> (b: bool)
        ensures
            b == (self@.len() == self.capacity()),
    {
        self.items.len() == self.capacity
    }

    /// Appends `e`. The queue must have room for it.
    pub fn enqueue(&mut self, e: T)
        requires
            old(self)@.len() < old(self).capacity(),
        ensures
            final(self)@ == old(self)@.push(e),
            final(self).capacity() == old(self).capacity(),
    {
        // The items are moved out while they change, so that the bound
        // holds of `self` at every step.
        let mut items = VecDeque::new();
        std::mem::swap(&mut self.items, &mut items);
        items.push_back(e);
        std::mem::swap(&mut self.items, &mut items);
    }

    /// Removes the first item. The queue must hold one.
    pub fn dequeue(&mut self) -> (e: T)
        requires
            old(self)@.len() > 0,
        ensures
            e == old(self)@[0],
            final(self)@ == old(self)@.drop_first(),
            final(self).capacity() == old(self).capacity(),
    {
        proof {
            use_type_invariant(&*self);
        }
        let mut items = VecDeque::new();
        std::mem::swap(&mut self.items, &mut items);
        let first = items.pop_front();
        std::mem::swap(&mut self.items, &mut items);
        first.unwrap()
    }

    /// Appends `e` if the queue has room, and hands it back if not.
    pub fn offer(&mut self, e: T) -> (r: Result<(), T>)
        ensures
            final(self).capacity() == old(self).capacity(),
            (final(self)@, r) == offered(old(self)@, old(self).capacity(), e),
    {
        proof {
            use_type_invariant(&*self);
        }
        if self.is_full() {
            return Err(e);
        }
        self.enqueue(e);
        Ok(())
    }

    /// Removes the first item, if there is one.
    pub fn poll(&mut self) -> (r: Option<T>)
        ensures
            final(self).capacity() == old(self).capacity(),
            (final(self)@, r) == polled(old(self)@),
    {
        if self.is_empty() {
            return None;
        }
        Some(self.dequeue())
    }
}

impl<T> QueueState<T> {
    /// One try at a put: takes the item of `out` unless the queue is full.
    pub fn try_put(&mut self, out: &mut Put<T>) -> (again: bool)
        requires
            old(out).item is Some,
        ensures
            final(self).capacity() == old(self).capacity(),
            again == (old(self)@.len() == old(self).capacity()),
            again ==> final(self)@ == old(self)@ && *final(out) == *old(out),
            !again ==> final(self)@ == old(self)@.push(old(out).item->0),
            !again ==> final(out).item is None,
            !again ==> final(out).room == (final(self)@.len() < final(self).capacity()),
    {
        proof {
            use_type_invariant(&*self);
        }
        let e = out.item.take().unwrap();
        match self.offer(e) {
            Ok(_) => {
                out.room = !self.is_full();
                false
            },
            Err(e) => {
                out.item = Some(e);
                true
            },
        }
    }

    /// One try at a take: gives the first item to `out` unless the queue is
    /// empty.
    pub fn try_take(&mut self, out: &mut Taken<T>) -> (again: bool)
        requires
            old(out).item is None,
        ensures
            final(self).capacity() == old(self).capacity(),
            again == (old(self)@.len() == 0),
            again ==> final(self)@ == old(self)@ && *final(out) == *old(out),
            !again ==> final(self)@ == old(self)@.drop_first(),
            !again ==> final(out).item == Some(old(self)@[0]),
            !again ==> final(out).more == (final(self)@.len() > 0),
            !again ==> final(out).was_full == (old(self)@.len() == old(self).capacity()),
    {
        let was_full = self.is_full();
        match self.poll() {
            Some(e) => {
                out.item = Some(e);
                out.was_full = was_full;
                out.more = !self.is_empty();
                false
            },
            None => true,
        }
    }
}

impl<T> Attempt<Put<T>> for QueueState<T> {
    open spec fn done(out: Put<T>) -> bool {
        out.item is None
    }

    /// One try at a put: `try_put`.
    fn attempt(&mut self, out: &mut Put<T>) -> (again: bool)
        ensures
            final(self).capacity() == old(self).capacity(),
            again == (old(self)@.len() == old(self).capacity()),
            again ==> final(self)@ == old(self)@ && *final(out) == *old(out),
            !again ==> final(self)@ == old(self)@.push(old(out).item->0),
            !again ==> final(out).item is None,
            !again ==> final(out).room == (final(self)@.len() < final(self).capacity()),
    {
        self.try_put(out)
    }
}

impl<T> Attempt<Taken<T>> for QueueState<T> {
    open spec fn done(out: Taken<T>) -> bool {
        out.item is Some
    }

    /// One try at a take: `try_take`.
    fn attempt(&mut self, out: &mut Taken<T>) -> (again: bool)
        ensures
            final(self).capacity() == old(self).capacity(),
            again == (old(self)@.len() == 0),
            again ==> final(self)@ == old(self)@ && *final(out) == *old(out),
            !again ==> final(self)@ == old(self)@.drop_first(),
            !again ==> final(out).item == Some(old(self)@[0]),
            !again ==> final(out).more == (final(self)@.len() > 0),
            !again ==> final(out).was_full == (old(self)@.len() == old(self).capacity()),
    {
        self.try_take(out)
    }
}

/// What the handles of one queue share.
#[verifier::reject_recursive_types(T)]
struct QueueInner<T> {
    /// The largest number of items that the queue holds at one time.
    capacity: usize,
    /// The current number of items, kept beside the lock for `len`.
    count: AtomicUsize,
    /// The items. Held by `put`, `offer`, `take` and `poll`.
    state: Mutex<QueueState<T>>,
    /// Where takes wait.
    not_empty: Condvar,
    /// Where puts wait.
    not_full: Condvar,
}

impl<T> QueueInner<T> {
    fn new(capacity: usize) -> (q: QueueInner<T>)
        ensures
            q.capacity == capacity,
    {
        QueueInner {
            capacity,
            count: AtomicUsize::new(0),
            state: Mutex::new(QueueState::new(capacity)),
            not_empty: Condvar::new(),
            not_full: Condvar::new(),
        }
    }

    fn len(&self) -> usize {
        self.count.load(Ordering::Relaxed)
    }

    fn put(&self, e: T) {
        let _ = self.offer_for_ms(e, u64::MAX);
    }

    fn offer(&self, e: T) -> (r: Result<(), T>)
        ensures
            r matches Err(x) ==> x == e,
    {
        if self.len() == self.capacity {
            return Err(e);
        }
        self.offer_for_ms(e, 0)
    }

    /// Enqueues `e`. While the queue is full, a put with `dur == 0` gives
    /// up and one with any other `dur` sleeps.
    fn offer_for_ms(&self, e: T, dur: u64) -> (r: Result<(), T>)
        ensures
            r matches Err(x) ==> x == e && dur == 0,
    {
        // Acquire the lock
        let mut guard = lock(&self.state);
        let mut out = Put { item: Some(e), room: false };
        if dur == 0 {
            let state = guard_mut(&mut guard);
            if state.try_put(&mut out) {
                return Err(out.item.unwrap());
            }
        } else {
            guard = wait_while(&self.not_full, guard, &mut out);
        }
        // The item is in the queue: count it
        self.count.fetch_add(1, Ordering::Release);
        if out.room {
            self.not_full.notify_one();
        }
        unlock(guard);
        self.notify_not_empty();
        Ok(())
    }

    fn take(&self) -> T {
        self.poll_for_ms(u64::MAX).unwrap()
    }

    fn poll(&self) -> Option<T> {
        if self.len() == 0 {
            // Fast path check
            return None;
        }
        self.poll_for_ms(0)
    }

    /// Dequeues an item. While the queue is empty, a poll with `dur == 0`
    /// gives up and one with any other `dur` sleeps.
    fn poll_for_ms(&self, dur: u64) -> (r: Option<T>)
        ensures
            dur != 0 ==> r is Some,
    {
        // Acquire the lock
        let mut guard = lock(&self.state);
        let mut out = Taken { item: None, more: false, was_full: false };
        if dur == 0 {
            let state = guard_mut(&mut guard);
            if state.try_take(&mut out) {
                return None;
            }
        } else {
            guard = wait_while(&self.not_empty, guard, &mut out);
        }
        // Acquire memory from the write side
        fence(Ordering::Acquire);
        self.count.fetch_sub(1, Ordering::Relaxed);
        if out.more {
            self.not_empty.notify_one();
        }
        // Release the lock before a waiting put is woken
        unlock(guard);
        if out.was_full {
            self.notify_not_full();
        }
        out.item
    }

    /// Signals a waiting put. Called only from take and poll.
    fn notify_not_full(&self) {
        let guard = lock(&self.state);
        self.not_full.notify_one();
        unlock(guard);
    }

    /// Signals a waiting take. Called only from put and offer.
    fn notify_not_empty(&self) {
        let guard = lock(&self.state);
        self.not_empty.notify_one();
        unlock(guard);
    }
}

/// A handle to a queue. A clone is another handle to the same queue.
#[verifier::reject_recursive_types(T)]
pub struct LinkedQueue<T> {
    inner: Arc<QueueInner<T>>,
}

impl<T> LinkedQueue<T> {
    /// A queue without a bound of its own.
    pub fn new() -> (q: LinkedQueue<T>)
        ensures
            q.capacity() == usize::MAX,
    {
        LinkedQueue::with_capacity(usize::MAX)
    }

    /// A queue that holds at most `capacity` items at one time.
    pub fn with_capacity(capacity: usize) -> (q: LinkedQueue<T>)
        ensures
            q.capacity() == capacity,
    {
        LinkedQueue { inner: Arc::new(QueueInner::new(capacity)) }
    }

    /// The bound that the queue was made with.
    pub closed spec fn capacity(&self) -> usize {
        self.inner.capacity
    }

    /// The number of items at some moment during the call.
    pub fn len(&self) -> usize {
        self.inner.len()
    }

    pub fn is_empty(&self) -> bool {
        self.len() == 0
    }

    /// Enqueues `e` unless the queue is full; a full queue hands `e` back.
    /// Never blocks beyond the lock.
    pub fn offer(&self, e: T) -> (r: Result<(), T>)
        ensures
            r matches Err(x) ==> x == e,
    {
        self.inner.offer(e)
    }

    /// Enqueues `e`, blocking until there is room.
    pub fn put(&self, e: T) {
        self.inner.put(e);
    }

    /// Dequeues the first item unless the queue is empty.
    pub fn poll(&self) -> Option<T> {
        self.inner.poll()
    }

    /// Takes from the queue, blocking until there is an element available.
    pub fn take(&self) -> T {
        self.inner.take()
    }
}

impl<T> Clone for LinkedQueue<T> {
    fn clone(&self) -> LinkedQueue<T> {
        LinkedQueue { inner: self.inner.clone() }
    }
}

} // verus!
