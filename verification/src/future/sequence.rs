//! A stream of values through a buffer of one cell.
//!
//! A `Sequence` is a future of its next value together with the rest of the
//! stream; `None` ends it. The `SeqProducer` fills the cell, and is itself a
//! stream of the consumer's states, so that a producer can wait until a
//! value is wanted before it makes one.

use super::callback::{Callback, Notify};
use super::future::{Cancel, Future, FutureResult};
use super::stream::Stream;
use super::sync::SyncFuture;
use super::val::WaitStrategy;
use crate::sync::lock::{guard_mut, lock, unlock, wait_while, Attempt};
use std::sync::{Arc, Condvar, Mutex, MutexGuard};
use vstd::prelude::*;

verus! {

/// The possible states for a consumer to be in.
#[derive(Debug, Clone, Copy, PartialEq, Eq, Structural)]
pub enum ConsumerState {
    /// The sequence can buffer another value, but the consumer has not
    /// indicated any interest yet.
    Ready,
    /// The consumer has expressed interest in the next value.
    Waiting,
    /// The stream cannot currently accept any further values.
    Full,
}

/// What the cell holds.
pub enum Head<T> {
    More(T),
    Done,
}

impl<T> Head<T> {
    /// The value, and `None` for the end of the stream.
    pub open spec fn value(self) -> Option<T> {
        match self {
            Head::More(val) => Some(val),
            Head::Done => None,
        }
    }

    pub fn into_value(self) -> (val: Option<T>)
        ensures
            val == self.value(),
    {
        match self {
            Head::More(val) => Some(val),
            Head::Done => None,
        }
    }
}

/// Which side waits.
#[derive(Debug, Clone, Copy, PartialEq, Eq, Structural)]
pub enum State {
    Pending,
    ConsumerWait,
    ProducerWait,
}

/// The state that a sequence and its producer share.
#[verifier::reject_recursive_types(T)]
pub struct Core<T> {
    pub head: Option<Head<T>>,
    /// How the consumer waits for the next value, if it does. Its callback
    /// gets the value, or `None` at the end of the stream.
    pub consumer: Option<WaitStrategy<Option<T>>>,
    /// How the producer waits for a change of the consumer's state, if it
    /// does. Its callback gets the new state, or `None` once the consumer
    /// is gone.
    pub producer: Option<WaitStrategy<Option<ConsumerState>>>,
    /// The last consumer state that the producer has seen.
    pub last_observed: ConsumerState,
    /// Whether the producer has ended the stream.
    pub closed: bool,
    /// Whether the consumer has given the stream up.
    pub canceled: bool,
}

/// A blocking take on its way: the head once it has left the cell, and how a
/// waiting producer is to be told of it.
#[verifier::reject_recursive_types(T)]
pub struct Taking<T> {
    pub head: Option<Head<T>>,
    pub notice: Notify<Option<ConsumerState>>,
}

impl<T> Core<T> {
    /// The cell holds no value while a consumer's callback waits for one.
    pub open spec fn wf(self) -> bool {
        self.head is Some ==> !(self.consumer matches Some(WaitStrategy::Callback(_)))
    }

    /// The state of a new sequence. The producer has seen nothing yet, which
    /// counts as `Full`, so that its first question is answered at once.
    pub open spec fn initial() -> Core<T> {
        Core {
            head: None,
            consumer: None,
            producer: None,
            last_observed: ConsumerState::Full,
            closed: false,
            canceled: false,
        }
    }

    pub fn new() -> (core: Core<T>)
        ensures
            core == Core::<T>::initial(),
            core.wf(),
    {
        Core {
            head: None,
            consumer: None,
            producer: None,
            last_observed: ConsumerState::Full,
            closed: false,
            canceled: false,
        }
    }

    /// Which side waits. A waiting consumer counts before a waiting
    /// producer.
    pub open spec fn state(self) -> State {
        if self.consumer is Some {
            State::ConsumerWait
        } else if self.producer is Some {
            State::ProducerWait
        } else {
            State::Pending
        }
    }

    pub fn is_pending(&self) -> (b: bool)
        ensures
            b == (self.state() == State::Pending),
    {
        self.consumer.is_none() && self.producer.is_none()
    }

    pub fn is_consumer_wait(&self) -> (b: bool)
        ensures
            b == (self.state() == State::ConsumerWait),
    {
        self.consumer.is_some()
    }

    /// Whether the consumer waits with a callback.
    pub fn is_callback(&self) -> (b: bool)
        ensures
            b == (self.consumer matches Some(WaitStrategy::Callback(_))),
    {
        match &self.consumer {
            Some(WaitStrategy::Callback(_)) => true,
            _ => false,
        }
    }

    /// The consumer's state as the producer is to see it.
    pub open spec fn spec_consumer_state(self) -> ConsumerState {
        match self.state() {
            State::Pending => ConsumerState::Ready,
            State::ConsumerWait => ConsumerState::Waiting,
            State::ProducerWait => if self.head is Some {
                ConsumerState::Full
            } else {
                ConsumerState::Ready
            },
        }
    }

    pub fn consumer_state(&self) -> (s: ConsumerState)
        ensures
            s == self.spec_consumer_state(),
    {
        if self.consumer.is_some() {
            ConsumerState::Waiting
        } else if self.producer.is_some() {
            if self.head.is_some() {
                ConsumerState::Full
            } else {
                ConsumerState::Ready
            }
        } else {
            ConsumerState::Ready
        }
    }

    /// Fills the cell, which must be empty.
    pub fn put(&mut self, val: T)
        requires
            old(self).head is None,
        ensures
            *final(self) == (Core { head: Some(Head::More(val)), ..*old(self) }),
    {
        self.head = Some(Head::More(val));
    }

    /// Empties the cell.
    pub fn take_head(&mut self) -> (head: Option<Head<T>>)
        ensures
            head == old(self).head,
            *final(self) == (Core { head: None, ..*old(self) }),
    {
        self.head.take()
    }

    /// Moves the consumer's callback out, if it waits with one.
    pub fn take_callback(&mut self) -> (cb: Option<Callback<Option<T>>>)
        ensures
            cb == old(self).callback(),
            *final(self) == old(self).without_callback(),
    {
        if self.is_callback() {
            match self.consumer.take() {
                Some(WaitStrategy::Callback(cb)) => Some(cb),
                _ => None,
            }
        } else {
            None
        }
    }

    /// The consumer's callback, if it waits with one.
    pub open spec fn callback(self) -> Option<Callback<Option<T>>> {
        match self.consumer {
            Some(WaitStrategy::Callback(cb)) => Some(cb),
            _ => None,
        }
    }

    pub open spec fn without_callback(self) -> Core<T> {
        match self.consumer {
            Some(WaitStrategy::Callback(_)) => Core { consumer: None, ..self },
            _ => self,
        }
    }
}

impl<T> Core<T> {
    /// Whether a producer that waits is to be told now: it waits, and the
    /// consumer's state is not the one it saw last.
    pub open spec fn changed(self) -> bool {
        self.producer is Some && self.spec_consumer_state() != self.last_observed
    }

    /// The state after a waiting producer has been told of a change, and
    /// how it is told. A callback leaves with the new state, which counts as
    /// seen from then on. A sleeping producer is woken and looks for itself.
    pub open spec fn observed(self) -> (Core<T>, Notify<Option<ConsumerState>>) {
        if !self.changed() {
            (self, Notify::Nothing)
        } else {
            match self.producer {
                Some(WaitStrategy::Callback(cb)) => (
                    Core { producer: None, last_observed: self.spec_consumer_state(), ..self },
                    Notify::Invoke(cb, Some(self.spec_consumer_state())),
                ),
                _ => (self, Notify::Signal),
            }
        }
    }

    /// Tells a waiting producer that the consumer's state has changed, if
    /// it has.
    pub fn observe(&mut self) -> (action: Notify<Option<ConsumerState>>)
        ensures
            (*final(self), action) == old(self).observed(),
            old(self).wf() ==> final(self).wf(),
    {
        let curr = self.consumer_state();
        if self.producer.is_none() || curr == self.last_observed {
            return Notify::Nothing;
        }
        let sleeps = match &self.producer {
            Some(WaitStrategy::Sync) => true,
            _ => false,
        };
        if sleeps {
            return Notify::Signal;
        }
        match self.producer.take() {
            Some(WaitStrategy::Callback(cb)) => {
                self.last_observed = curr;
                Notify::Invoke(cb, Some(curr))
            },
            _ => Notify::Nothing,
        }
    }

    /// The state once the head has left the cell: the end of a closed
    /// stream moves into the cell behind the last value.
    pub open spec fn without_head(self) -> Core<T> {
        Core {
            head: if self.closed && self.head matches Some(Head::More(_)) {
                Some(Head::Done)
            } else {
                None
            },
            ..self
        }
    }

    /// The state after the consumer has come with `cb`: the head leaves
    /// with `cb` if the cell holds one, else `cb` stays and waits.
    pub open spec fn asked(self, cb: Callback<Option<T>>) -> Core<T> {
        match self.head {
            Some(_) => Core { consumer: None, ..self.without_head() },
            None => Core { consumer: Some(WaitStrategy::Callback(cb)), ..self },
        }
    }

    /// What there is to do once the consumer has come with `cb`: first for
    /// a waiting producer, then for the consumer.
    pub open spec fn received(self, cb: Callback<Option<T>>) -> (
        Core<T>,
        Notify<Option<ConsumerState>>,
        Notify<Option<T>>,
    ) {
        let (core, notice) = self.asked(cb).observed();
        match self.head {
            Some(head) => (core, notice, Notify::Invoke(cb, head.value())),
            None => (core, notice, Notify::Nothing),
        }
    }

    /// The consumer comes with a callback.
    pub fn receive(&mut self, cb: Callback<Option<T>>) -> (action: (
        Notify<Option<ConsumerState>>,
        Notify<Option<T>>,
    ))
        ensures
            (*final(self), action.0, action.1) == old(self).received(cb),
            final(self).wf(),
    {
        match self.leave() {
            Some(head) => {
                self.consumer = None;
                let notice = self.observe();
                (notice, Notify::Invoke(cb, head.into_value()))
            },
            None => {
                // No head yet, indicate interest by registering the
                // callback.
                self.consumer = Some(WaitStrategy::Callback(cb));
                let notice = self.observe();
                (notice, Notify::Nothing)
            },
        }
    }

    /// Takes the head out of the cell; behind the last value of a closed
    /// stream its end moves in.
    pub fn leave(&mut self) -> (head: Option<Head<T>>)
        ensures
            head == old(self).head,
            *final(self) == old(self).without_head(),
    {
        let head = self.take_head();
        let last = match &head {
            Some(Head::More(_)) => self.closed,
            _ => false,
        };
        if last {
            self.head = Some(Head::Done);
        }
        head
    }

    /// The state after a consumer that is about to sleep for the next
    /// value has put its wait on record, if the cell is empty.
    pub open spec fn waited(self) -> (Core<T>, Notify<Option<ConsumerState>>) {
        if self.head is Some {
            (self, Notify::Nothing)
        } else {
            (Core { consumer: Some(WaitStrategy::Sync), ..self }).observed()
        }
    }

    /// A consumer is about to sleep for the next value: a waiting producer
    /// is to be told before it does.
    pub fn begin_take(&mut self) -> (action: Notify<Option<ConsumerState>>)
        ensures
            (*final(self), action) == old(self).waited(),
            old(self).wf() ==> final(self).wf(),
    {
        if self.head.is_some() {
            return Notify::Nothing;
        }
        self.consumer = Some(WaitStrategy::Sync);
        self.observe()
    }

    /// The state after one try of a consumer that sleeps for the next
    /// value, and how a waiting producer is told that the head has left.
    pub open spec fn tried_take(self) -> (Core<T>, Notify<Option<ConsumerState>>) {
        match self.head {
            Some(_) => (Core { consumer: None, ..self.without_head() }).observed(),
            None => (Core { consumer: Some(WaitStrategy::Sync), ..self }, Notify::Nothing),
        }
    }

    /// One try of a consumer that sleeps for the next value.
    pub fn try_take(&mut self, out: &mut Taking<T>) -> (again: bool)
        ensures
            *final(self) == old(self).tried_take().0,
            again == (old(self).head is None),
            again ==> *final(out) == *old(out),
            !again ==> final(out).head == old(self).head,
            !again ==> final(out).notice == old(self).tried_take().1,
            final(self).wf(),
    {
        match self.leave() {
            Some(head) => {
                self.consumer = None;
                out.notice = self.observe();
                out.head = Some(head);
                false
            },
            None => {
                self.consumer = Some(WaitStrategy::Sync);
                true
            },
        }
    }

    /// Whether the stream takes another value: the cell is empty, and
    /// neither side has ended the stream.
    pub open spec fn accepts(self) -> bool {
        self.head is None && !self.closed && !self.canceled
    }

    /// The state after the producer has sent `val`, and what is left to
    /// do: a consumer's callback that waits gets `val` at once, else `val`
    /// fills the cell and a sleeping consumer is woken.
    pub open spec fn sent(self, val: T) -> (Core<T>, Notify<Option<T>>) {
        match self.consumer {
            Some(WaitStrategy::Callback(cb)) => (
                Core { consumer: None, ..self },
                Notify::Invoke(cb, Some(val)),
            ),
            Some(WaitStrategy::Sync) => (
                Core { head: Some(Head::More(val)), ..self },
                Notify::Signal,
            ),
            None => (Core { head: Some(Head::More(val)), ..self }, Notify::Nothing),
        }
    }

    /// The producer sends `val`. The stream must take it.
    pub fn send(&mut self, val: T) -> (action: Notify<Option<T>>)
        requires
            old(self).accepts(),
        ensures
            (*final(self), action) == old(self).sent(val),
            final(self).wf(),
    {
        match self.take_callback() {
            Some(cb) => Notify::Invoke(cb, Some(val)),
            None => {
                self.put(val);
                if self.is_consumer_wait() {
                    Notify::Signal
                } else {
                    Notify::Nothing
                }
            },
        }
    }

    /// The producer sends `val` if the stream takes it, and gets it back
    /// if not.
    pub fn offer(&mut self, val: T) -> (action: Result<Notify<Option<T>>, T>)
        ensures
            old(self).accepts() ==> action == Ok::<Notify<Option<T>>, T>(old(self).sent(val).1)
                && *final(self) == old(self).sent(val).0,
            !old(self).accepts() ==> action == Err::<Notify<Option<T>>, T>(val) && *final(self)
                == *old(self),
            old(self).wf() ==> final(self).wf(),
    {
        if self.head.is_some() || self.closed || self.canceled {
            return Err(val);
        }
        Ok(self.send(val))
    }

    /// The state after the producer has ended the stream, and what is left
    /// to do: a consumer's callback that waits is told at once, else the
    /// end fills the cell, behind a value that is still there.
    pub open spec fn ended(self) -> (Core<T>, Notify<Option<T>>) {
        if self.closed {
            (self, Notify::Nothing)
        } else if self.head is Some {
            (Core { closed: true, ..self }, Notify::Nothing)
        } else {
            match self.consumer {
                Some(WaitStrategy::Callback(cb)) => (
                    Core { consumer: None, closed: true, ..self },
                    Notify::Invoke(cb, None),
                ),
                Some(WaitStrategy::Sync) => (
                    Core { head: Some(Head::Done), closed: true, ..self },
                    Notify::Signal,
                ),
                None => (Core { head: Some(Head::Done), closed: true, ..self }, Notify::Nothing),
            }
        }
    }

    /// The producer ends the stream.
    pub fn done(&mut self) -> (action: Notify<Option<T>>)
        ensures
            (*final(self), action) == old(self).ended(),
            old(self).wf() ==> final(self).wf(),
    {
        if self.closed {
            return Notify::Nothing;
        }
        self.closed = true;
        if self.head.is_some() {
            return Notify::Nothing;
        }
        match self.take_callback() {
            Some(cb) => Notify::Invoke(cb, None),
            None => {
                self.head = Some(Head::Done);
                if self.is_consumer_wait() {
                    Notify::Signal
                } else {
                    Notify::Nothing
                }
            },
        }
    }

    /// The state after the producer has asked for the consumer's state
    /// with `cb`, and what is left to do. `cb` is called at once with
    /// `None` where the consumer is gone, and with the state where it is
    /// not the one that the producer saw last; else `cb` stays and waits.
    pub open spec fn interest_received(self, cb: Callback<Option<ConsumerState>>) -> (
        Core<T>,
        Notify<Option<ConsumerState>>,
    ) {
        if self.canceled {
            (self, Notify::Invoke(cb, None))
        } else if self.spec_consumer_state() == self.last_observed {
            (Core { producer: Some(WaitStrategy::Callback(cb)), ..self }, Notify::Nothing)
        } else {
            (
                Core { last_observed: self.spec_consumer_state(), ..self },
                Notify::Invoke(cb, Some(self.spec_consumer_state())),
            )
        }
    }

    /// The producer asks for the consumer's state with a callback.
    pub fn producer_receive(&mut self, cb: Callback<Option<ConsumerState>>) -> (action: Notify<
        Option<ConsumerState>,
    >)
        ensures
            (*final(self), action) == old(self).interest_received(cb),
            old(self).wf() ==> final(self).wf(),
    {
        if self.canceled {
            return Notify::Invoke(cb, None);
        }
        // Get the current consumer state
        let curr = self.consumer_state();
        // If the state is identical to the last observed state, then it
        // is not interesting. Save off the callback for later invocation.
        if curr == self.last_observed {
            self.producer = Some(WaitStrategy::Callback(cb));
            return Notify::Nothing;
        }
        // The state has changed since last observation, record the new
        // one.
        self.last_observed = curr;
        Notify::Invoke(cb, Some(curr))
    }

    /// The state after the consumer has looked for the head without
    /// waiting, and how a waiting producer is told if the head has left.
    pub open spec fn polled(self) -> (Core<T>, Notify<Option<ConsumerState>>) {
        match self.head {
            Some(_) => self.without_head().observed(),
            None => (self, Notify::Nothing),
        }
    }

    /// The consumer takes the head if the cell holds one, without waiting.
    pub fn poll(&mut self) -> (r: (Option<Head<T>>, Notify<Option<ConsumerState>>))
        ensures
            r.0 == old(self).head,
            (*final(self), r.1) == old(self).polled(),
            old(self).wf() ==> final(self).wf(),
    {
        match self.leave() {
            Some(head) => {
                let notice = self.observe();
                (Some(head), notice)
            },
            None => (None, Notify::Nothing),
        }
    }

    /// The state after the producer has looked at the consumer's state
    /// without waiting.
    pub open spec fn glanced(self) -> Core<T> {
        if self.canceled || self.spec_consumer_state() == self.last_observed {
            self
        } else {
            Core { last_observed: self.spec_consumer_state(), ..self }
        }
    }

    /// The producer looks at the consumer's state without waiting: `None`
    /// where it is the one that the producer saw last.
    pub fn glance(&mut self) -> (change: Option<Option<ConsumerState>>)
        ensures
            change == old(self).seen(),
            *final(self) == old(self).glanced(),
            old(self).wf() ==> final(self).wf(),
    {
        if self.canceled {
            return Some(None);
        }
        let curr = self.consumer_state();
        if curr == self.last_observed {
            return None;
        }
        self.last_observed = curr;
        Some(Some(curr))
    }

    /// The state after one try of a producer that sleeps for a change of
    /// the consumer's state.
    pub open spec fn tried_observe(self) -> Core<T> {
        if self.canceled {
            Core { producer: None, ..self }
        } else if self.spec_consumer_state() == self.last_observed {
            Core { producer: Some(WaitStrategy::Sync), ..self }
        } else {
            Core { producer: None, last_observed: self.spec_consumer_state(), ..self }
        }
    }

    /// What a producer that sleeps for a change of the consumer's state
    /// knows after one try: `None` while nothing has changed, else the new
    /// state, or that the consumer is gone.
    pub open spec fn seen(self) -> Option<Option<ConsumerState>> {
        if self.canceled {
            Some(None)
        } else if self.spec_consumer_state() == self.last_observed {
            None
        } else {
            Some(Some(self.spec_consumer_state()))
        }
    }

    /// One try of a producer that sleeps for a change of the consumer's
    /// state.
    pub fn try_observe(&mut self, out: &mut Option<Option<ConsumerState>>) -> (again: bool)
        requires
            *old(out) is None,
        ensures
            *final(self) == old(self).tried_observe(),
            *final(out) == old(self).seen(),
            again == (*final(out) is None),
            old(self).wf() ==> final(self).wf(),
    {
        if self.canceled {
            self.producer = None;
            *out = Some(None);
            return false;
        }
        let curr = self.consumer_state();
        if curr == self.last_observed {
            self.producer = Some(WaitStrategy::Sync);
            return true;
        }
        self.producer = None;
        self.last_observed = curr;
        *out = Some(Some(curr));
        false
    }

    /// The state after the consumer has given the stream up, and how a
    /// waiting producer is told.
    pub open spec fn canceled_by_consumer(self) -> (Core<T>, Notify<Option<ConsumerState>>) {
        match self.producer {
            Some(WaitStrategy::Callback(cb)) => (
                Core { consumer: None, producer: None, canceled: true, ..self },
                Notify::Invoke(cb, None),
            ),
            Some(WaitStrategy::Sync) => (
                Core { consumer: None, canceled: true, ..self },
                Notify::Signal,
            ),
            None => (Core { consumer: None, canceled: true, ..self }, Notify::Nothing),
        }
    }

    /// The consumer gives the stream up.
    pub fn cancel(&mut self) -> (action: Notify<Option<ConsumerState>>)
        ensures
            (*final(self), action) == old(self).canceled_by_consumer(),
            final(self).wf(),
    {
        self.canceled = true;
        self.consumer = None;
        let sleeps = match &self.producer {
            Some(WaitStrategy::Sync) => true,
            _ => false,
        };
        if sleeps {
            return Notify::Signal;
        }
        match self.producer.take() {
            Some(WaitStrategy::Callback(cb)) => Notify::Invoke(cb, None),
            _ => Notify::Nothing,
        }
    }
}

/// Telling the producer of a change moves no value: the cell, the
/// consumer's wait and the two ends of the stream stay as they are.
pub proof fn lemma_observed_keeps_the_cell<T>(core: Core<T>)
    ensures
        core.observed().0.head == core.head,
        core.observed().0.consumer == core.consumer,
        core.observed().0.closed == core.closed,
        core.observed().0.canceled == core.canceled,
{
}

/// A value that the producer sent first waits in the cell, and the consumer
/// that comes for it finds it there; the cell is empty again then.
pub proof fn lemma_send_then_take<T>(core: Core<T>, val: T)
    requires
        core.accepts(),
        core.consumer is None,
    ensures
        core.sent(val) == (Core { head: Some(Head::More(val)), ..core }, Notify::<Option<T>>::Nothing),
        core.sent(val).0.head == Some(Head::More(val)),
        core.sent(val).0.polled().0.accepts(),
        core.sent(val).0.polled().0.consumer is None,
{
}

/// A callback with which the consumer came first is called with the value
/// that the producer sends, once: the value goes to the callback and not
/// into the cell, and the callback is gone from the state.
pub proof fn lemma_receive_then_send<T>(core: Core<T>, val: T, cb: Callback<Option<T>>)
    requires
        core.accepts(),
    ensures
        core.asked(cb).observed().0.sent(val).1 == Notify::Invoke(cb, Some(val)),
        core.asked(cb).observed().0.sent(val).0.head is None,
        core.asked(cb).observed().0.sent(val).0.consumer is None,
{
}

/// What the consumer takes, and the state that is left, when the producer
/// sends `items` one by one and the consumer takes each before the next is
/// sent.
pub open spec fn relayed<T>(core: Core<T>, items: Seq<T>) -> (Core<T>, Seq<Option<T>>)
    decreases items.len(),
{
    if items.len() == 0 {
        (core, Seq::empty())
    } else {
        let (before, taken) = relayed(core, items.drop_last());
        let full = before.sent(items.last()).0;
        (
            full.polled().0,
            taken.push(
                match full.head {
                    Some(head) => head.value(),
                    None => None,
                },
            ),
        )
    }
}

/// The consumer takes the values in the order in which the producer sent
/// them, each once and none lost, and the stream takes the next value after
/// each of them.
pub proof fn lemma_relay_in_order<T>(core: Core<T>, items: Seq<T>)
    requires
        core.accepts(),
        core.consumer is None,
    ensures
        relayed(core, items).1 == items.map_values(|val: T| Some(val)),
        relayed(core, items).0.accepts(),
        relayed(core, items).0.consumer is None,
    decreases items.len(),
{
    if items.len() > 0 {
        lemma_relay_in_order(core, items.drop_last());
        let before = relayed(core, items.drop_last()).0;
        lemma_send_then_take(before, items.last());
        assert(relayed(core, items).1 =~= items.map_values(|val: T| Some(val)));
    } else {
        assert(relayed(core, items).1 =~= items.map_values(|val: T| Some(val)));
    }
}

/// The end of the stream comes last and once: after the values that were
/// sent and taken, the consumer that comes next finds the end in the cell;
/// and a stream that the producer has ended takes no further value.
pub proof fn lemma_done_is_last<T>(core: Core<T>, items: Seq<T>, late: T)
    requires
        core.accepts(),
        core.consumer is None,
    ensures
        relayed(core, items).0.ended().0.head == Some(Head::<T>::Done),
        Head::<T>::Done.value() == None::<T>,
        relayed(core, items).0.ended().0.polled().0.head is None,
        !relayed(core, items).0.ended().0.accepts(),
        !relayed(core, items).0.ended().0.polled().0.accepts(),
{
    lemma_relay_in_order(core, items);
}

/// The end of the stream waits behind a value that is still in the cell:
/// the consumer takes the value first and finds the end after it.
pub proof fn lemma_done_behind_value<T>(core: Core<T>, val: T)
    requires
        core.accepts(),
        core.consumer is None,
    ensures
        core.sent(val).0.ended().0.head == Some(Head::More(val)),
        core.sent(val).0.ended().0.polled().0.head == Some(Head::<T>::Done),
{
}

impl<T> Attempt<Taking<T>> for Core<T> {
    open spec fn done(out: Taking<T>) -> bool {
        out.head is Some
    }

    /// One try of a consumer that sleeps for the next value: `try_take`.
    fn attempt(&mut self, out: &mut Taking<T>) -> (again: bool)
        ensures
            *final(self) == old(self).tried_take().0,
            again == (old(self).head is None),
            again ==> *final(out) == *old(out),
            !again ==> final(out).head == old(self).head,
            !again ==> final(out).notice == old(self).tried_take().1,
            final(self).wf(),
    {
        self.try_take(out)
    }
}

impl<T> Attempt<Option<Option<ConsumerState>>> for Core<T> {
    open spec fn done(out: Option<Option<ConsumerState>>) -> bool {
        out is Some
    }

    /// One try of a producer that sleeps for a change of the consumer's
    /// state: `try_observe`.
    fn attempt(&mut self, out: &mut Option<Option<ConsumerState>>) -> (again: bool)
        ensures
            *final(self) == old(self).tried_observe(),
            *final(out) == old(self).seen(),
            again == (*final(out) is None),
            old(self).wf() ==> final(self).wf(),
    {
        self.try_observe(out)
    }
}

/// The next value of a sequence and the rest of the sequence; `None` at its
/// end.
pub type Next<T> = Option<(T, Sequence<T>)>;

/// The consumer's new state and the producer to go on with; `None` once the
/// consumer is gone.
pub type NextConsumerState<T> = Option<(ConsumerState, SeqProducer<T>)>;

/// A sequence and the producer that fills it: the two are handles to one
/// state.
pub fn sequence<T: Send + 'static>() -> (pair: (Sequence<T>, SeqProducer<T>))
    ensures
        pair.1.feeds(pair.0),
{
    let core = Arc::new(Shared { core: Mutex::new(Core::new()), condvar: Condvar::new() });
    let s = Sequence { core: core.clone() };
    let p = SeqProducer { core };
    (s, p)
}

/// What the two handles share.
#[verifier::reject_recursive_types(T)]
struct Shared<T> {
    core: Mutex<Core<T>>,
    /// Where the side that sleeps waits for the other.
    condvar: Condvar,
}

impl<T: Send + 'static> Shared<T> {
    /// Releases the lock and carries out what a transition left to do.
    fn finish<'a, A>(&'a self, core: MutexGuard<'a, Core<T>>, action: Notify<A>) {
        match action {
            Notify::Invoke(cb, arg) => {
                unlock(core);
                cb.call(arg);
            },
            Notify::Signal => {
                self.condvar.notify_one();
                unlock(core);
            },
            Notify::Nothing => {
                unlock(core);
            },
        }
    }

    /// Carries out what a transition left to do and comes back with the
    /// lock, which is not held while a callback runs.
    fn carry_on<'a, A>(&'a self, core: MutexGuard<'a, Core<T>>, action: Notify<A>) -> MutexGuard<
        'a,
        Core<T>,
    > {
        match action {
            Notify::Invoke(cb, arg) => {
                unlock(core);
                cb.call(arg);
                lock(&self.core)
            },
            Notify::Signal => {
                self.condvar.notify_one();
                core
            },
            Notify::Nothing => core,
        }
    }
}

/// The consuming handle of a stream.
#[verifier::reject_recursive_types(T)]
pub struct Sequence<T> {
    core: Arc<Shared<T>>,
}

impl<T: Send + 'static> Sequence<T> {
    /// Calls `cb` with the next value and the rest of the sequence, or
    /// with `None` at its end: at once if the cell holds the head, else
    /// when the producer brings it. A producer that waits for a change of
    /// the consumer's state is told first.
    pub fn receive<F>(self, cb: F) where F: FnOnce(Next<T>) + Send + 'static
        requires
            forall|next: Next<T>| cb.requires((next,)),
    {
        // The rest of the stream
        let rest = Sequence { core: self.core.clone() };
        let next = move |head: Option<T>|
            requires
                forall|next: Next<T>| cb.requires((next,)),
            {
                match head {
                    Some(val) => cb(Some((val, rest))),
                    None => cb(None),
                }
            };
        // Acquire the mutex
        let mut core = lock(&self.core.core);
        let (notice, delivery) = guard_mut(&mut core).receive(Callback::new(next));
        let core = self.core.carry_on(core, notice);
        // The head of the sequence has been realized, invoke the callback
        // with it.
        self.core.finish(core, delivery);
    }

    /// Sleeps until the cell holds the head, and returns the next value
    /// and the rest of the sequence, or `None` at its end. The rest is this
    /// sequence again: a handle to the same state.
    pub fn take(self) -> (next: Next<T>)
        ensures
            next matches Some(more) ==> more.1 == self,
    {
        let head = {
            // Acquire the mutex
            let mut core = lock(&self.core.core);
            let notice = guard_mut(&mut core).begin_take();
            let core = self.core.carry_on(core, notice);
            let mut out = Taking { head: None, notice: Notify::Nothing };
            let core = wait_while(&self.core.condvar, core, &mut out);
            let Taking { head, notice } = out;
            self.core.finish(core, notice);
            head.unwrap()
        };
        match head {
            Head::More(val) => Some((val, self)),
            Head::Done => None,
        }
    }

    /// Returns what `take` returns if the cell holds the head, and the
    /// sequence back, unchanged, if not.
    pub fn try_take(self) -> (r: Result<Next<T>, Sequence<T>>)
        ensures
            r matches Ok(Some(more)) ==> more.1 == self,
            r matches Err(s) ==> s == self,
    {
        let head = {
            let mut core = lock(&self.core.core);
            let (head, notice) = guard_mut(&mut core).poll();
            self.core.finish(core, notice);
            head
        };
        match head {
            Some(Head::More(val)) => Ok(Some((val, self))),
            Some(Head::Done) => Ok(None),
            None => Err(self),
        }
    }

    /// Gives the stream up: the producer is told so when it next asks for
    /// the consumer's state, or now if it waits for it.
    pub fn cancel(self) {
        let mut core = lock(&self.core.core);
        let notice = guard_mut(&mut core).cancel();
        self.core.finish(core, notice);
    }
}

/// The producing half of a sequence. Each item sent realizes the current
/// head.
///
/// SeqProducer is also a stream of consumer state changes. This can be used
/// by the producing code to watch whether or not the consumer has registered
/// an interest for the next element.
#[verifier::reject_recursive_types(T)]
pub struct SeqProducer<T> {
    core: Arc<Shared<T>>,
}

impl<T: Send + 'static> SeqProducer<T> {
    /// Whether this producer fills `s`: the two are handles to one state.
    pub closed spec fn feeds(self, s: Sequence<T>) -> bool {
        self.core == s.core
    }

    /// Sends `val` as the next value and returns the producer to go on
    /// with. A stream that does not take a value now, because its cell is
    /// full or because one side has ended it, hands `val` back.
    pub fn send(self, val: T) -> (r: Result<SeqProducer<T>, (SeqProducer<T>, T)>)
        ensures
            r matches Ok(p) ==> p == self,
            r matches Err(back) ==> back.0 == self && back.1 == val,
    {
        let sent = {
            let mut core = lock(&self.core.core);
            match guard_mut(&mut core).offer(val) {
                Ok(delivery) => {
                    self.core.finish(core, delivery);
                    None
                },
                Err(val) => Some(val),
            }
        };
        match sent {
            None => Ok(self),
            Some(val) => Err((self, val)),
        }
    }

    /// Ends the stream: the consumer gets `None` after the values that
    /// were sent.
    pub fn done(self) {
        let mut core = lock(&self.core.core);
        let delivery = guard_mut(&mut core).done();
        self.core.finish(core, delivery);
    }

    /// Calls `cb` with the consumer's state and the producer once that
    /// state is not the one that the producer saw last: at once if it is
    /// not, else from the consumer's call that changes it. `cb` gets `None`
    /// once the consumer has given the stream up.
    ///
    /// States are compared, not counted: a consumer whose callback got a
    /// value and that waits again is in the state `Waiting` as before. A
    /// producer that was told `Waiting` therefore sends until the stream
    /// hands a value back, and asks for the next change only then.
    pub fn receive<F>(self, cb: F) where F: FnOnce(NextConsumerState<T>) + Send + 'static
        requires
            forall|next: NextConsumerState<T>| cb.requires((next,)),
    {
        let producer = SeqProducer { core: self.core.clone() };
        let changed = move |state: Option<ConsumerState>|
            requires
                forall|next: NextConsumerState<T>| cb.requires((next,)),
            {
                match state {
                    Some(state) => cb(Some((state, producer))),
                    None => cb(None),
                }
            };
        let mut core = lock(&self.core.core);
        let notice = guard_mut(&mut core).producer_receive(Callback::new(changed));
        // Invoke the callback with the new state
        self.core.finish(core, notice);
    }

    /// Sleeps until the consumer's state is not the one that the producer
    /// saw last, and returns it with the producer; `None` once the consumer
    /// has given the stream up.
    pub fn take(self) -> (next: NextConsumerState<T>)
        ensures
            next matches Some(change) ==> change.1 == self,
    {
        let mut out: Option<Option<ConsumerState>> = None;
        {
            let core = lock(&self.core.core);
            let core = wait_while(&self.core.condvar, core, &mut out);
            unlock(core);
        }
        match out.unwrap() {
            Some(state) => Some((state, self)),
            None => None,
        }
    }

    /// Returns what `take` returns if the consumer's state is not the one
    /// that the producer saw last, and the producer back, unchanged, if it
    /// is.
    pub fn try_take(self) -> (r: Result<NextConsumerState<T>, SeqProducer<T>>)
        ensures
            r matches Ok(Some(change)) ==> change.1 == self,
            r matches Err(p) ==> p == self,
    {
        let change = {
            let mut core = lock(&self.core.core);
            guard_mut(&mut core).glance()
        };
        match change {
            Some(Some(state)) => Ok(Some((state, self))),
            Some(None) => Ok(None),
            None => Err(self),
        }
    }
}

impl<T: Send + 'static> Future<Next<T>> for Sequence<T> {
    fn receive<F>(self, cb: F) where F: FnOnce(FutureResult<Next<T>>) + Send + 'static {
        let ok = move |next: Next<T>|
            requires
                forall|next: FutureResult<Next<T>>| cb.requires((next,)),
            { cb(Ok(next)) };
        Sequence::receive(self, ok);
    }
}

impl<T: Send + 'static> Stream<T> for Sequence<T> {
    fn each<F>(self, cb: F) where F: Fn(T) -> () + Send + 'static {
        self.each_of(cb, MAX_EACH);
    }
}

/// How many values one call of `each` hands on.
pub const MAX_EACH: usize = usize::MAX;

impl<T: Send + 'static> Sequence<T> {
    /// Calls `cb` with each of the next `left` values of the stream.
    fn each_of<F>(self, cb: F, left: usize) where F: Fn(T) -> () + Send + 'static
        requires
            forall|val: T| cb.requires((val,)),
        decreases left,
    {
        if left == 0 {
            return ;
        }
        let step = move |next: Next<T>|
            requires
                forall|val: T| cb.requires((val,)),
                left > 0,
            {
                if let Some((val, rest)) = next {
                    cb(val);
                    rest.each_of(cb, left - 1);
                }
            };
        Sequence::receive(self, step);
    }
}

impl<T: Send + 'static> SyncFuture<Next<T>> for Sequence<T> {
    fn take(self) -> (next: Next<T>)
        ensures
            next matches Some(more) ==> more.1 == self,
    {
        Sequence::take(self)
    }

    /// Gets the value from the future if it has been completed.
    fn try_take(self) -> (r: Result<Next<T>, Sequence<T>>)
        ensures
            r matches Ok(Some(more)) ==> more.1 == self,
            r matches Err(s) ==> s == self,
    {
        Sequence::try_take(self)
    }
}

impl<T: Send + 'static> Cancel for Sequence<T> {
    fn cancel(self) {
        Sequence::cancel(self);
    }
}

impl<T: Send + 'static> Future<NextConsumerState<T>> for SeqProducer<T> {
    fn receive<F>(self, cb: F) where F: FnOnce(FutureResult<NextConsumerState<T>>) + Send + 'static {
        let ok = move |next: NextConsumerState<T>|
            requires
                forall|next: FutureResult<NextConsumerState<T>>| cb.requires((next,)),
            { cb(Ok(next)) };
        SeqProducer::receive(self, ok);
    }
}

impl<T: Send + 'static> SyncFuture<NextConsumerState<T>> for SeqProducer<T> {
    fn take(self) -> (next: NextConsumerState<T>)
        ensures
            next matches Some(change) ==> change.1 == self,
    {
        SeqProducer::take(self)
    }

    fn try_take(self) -> (r: Result<NextConsumerState<T>, SeqProducer<T>>)
        ensures
            r matches Ok(Some(change)) ==> change.1 == self,
            r matches Err(p) ==> p == self,
    {
        SeqProducer::try_take(self)
    }
}

} // verus!
