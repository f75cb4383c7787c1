use pythia::future::sequence::{ConsumerState, Head, Taking};
use pythia::future::val::{Awaited, Completion, Interest, WaitStrategy};
use pythia::future::{sequence, val};
use pythia::future::{Callback, FutureError, FutureResult, Notify};
use std::sync::mpsc::channel;

#[test]
fn a_callback_runs_with_its_argument() {
    let (tx, rx) = channel();
    let cb = Callback::new(move |v: u32| tx.send(v + 1).unwrap());
    cb.call(41);
    assert_eq!(rx.recv().unwrap(), 42);
}

#[test]
fn core_stores_a_value_that_nobody_waits_for() {
    let mut core = val::Core::<u32>::new();
    assert!(!core.is_complete());
    assert!(matches!(core.complete(Ok(1)), Notify::Nothing));
    assert!(core.is_complete());
    assert!(core.completion.is_pending());
    assert_eq!(core.take_value().unwrap().unwrap(), 1);
    assert!(!core.is_complete());
}

#[test]
fn core_drops_a_second_value() {
    let mut core = val::Core::<u32>::new();
    assert!(matches!(core.complete(Ok(1)), Notify::Nothing));
    assert!(matches!(core.complete(Ok(2)), Notify::Nothing));
    assert_eq!(core.take_value().unwrap().unwrap(), 1);
    assert!(core.take_value().is_none());
}

#[test]
fn core_hands_the_value_to_a_waiting_callback() {
    let (tx, rx) = channel();
    let mut core = val::Core::<u32>::new();
    let cb = Callback::new(move |v: FutureResult<u32>| tx.send(v.unwrap()).unwrap());
    assert!(matches!(core.receive(cb), Notify::Nothing));
    assert!(core.completion.is_consumer_wait());

    match core.complete(Ok(5)) {
        Notify::Invoke(cb, val) => cb.call(val),
        _ => panic!("the callback waits"),
    }
    assert_eq!(rx.recv().unwrap(), 5);
    // Neither the value nor the callback is kept
    assert!(!core.is_complete());
    assert!(core.completion.is_pending());
}

#[test]
fn core_hands_a_value_that_is_there_to_the_callback() {
    let (tx, rx) = channel();
    let mut core = val::Core::<u32>::new();
    assert!(matches!(core.complete(Ok(9)), Notify::Nothing));
    let cb = Callback::new(move |v: FutureResult<u32>| tx.send(v.unwrap()).unwrap());
    match core.receive(cb) {
        Notify::Invoke(cb, val) => cb.call(val),
        _ => panic!("the value is there"),
    }
    assert_eq!(rx.recv().unwrap(), 9);
    assert!(!core.is_complete());
    assert!(core.completion.is_pending());
}

#[test]
fn core_wakes_a_sleeping_consumer() {
    let mut core = val::Core::<u32>::new();
    let mut out = None;
    assert!(core.try_take(&mut out));
    assert!(out.is_none());
    assert!(matches!(core.completion, Completion::ConsumerWait(WaitStrategy::Sync)));

    assert!(matches!(core.complete(Ok(3)), Notify::Signal));
    assert!(core.completion.is_pending());

    assert!(!core.try_take(&mut out));
    assert_eq!(out.unwrap().unwrap(), 3);
}

#[test]
fn core_tells_a_waiting_producer_of_interest() {
    let (tx, rx) = channel();
    let mut core = val::Core::<u32>::new();
    let cb = Callback::new(move |i: FutureResult<()>| tx.send(i.is_ok()).unwrap());
    assert!(matches!(core.completer_receive(cb), Notify::Nothing));
    assert!(core.completion.is_completer_wait());
    assert!(core.interest().is_none());

    match core.notice() {
        Notify::Invoke(cb, interest) => cb.call(interest),
        _ => panic!("the producer waits"),
    }
    assert!(rx.recv().unwrap());
    assert!(core.completion.is_pending());
    assert!(matches!(core.notice(), Notify::Nothing));
}

#[test]
fn core_answers_a_producer_at_once_when_the_consumer_waits() {
    let mut core = val::Core::<u32>::new();
    assert!(matches!(core.receive(Callback::new(|_v: FutureResult<u32>| {})), Notify::Nothing));
    assert!(matches!(core.interest(), Some(Ok(()))));
    match core.completer_receive(Callback::new(|_i: FutureResult<()>| {})) {
        Notify::Invoke(_, interest) => assert!(interest.is_ok()),
        _ => panic!("the consumer waits"),
    }
    assert!(core.completion.is_consumer_wait());
}

#[test]
fn core_tells_the_producer_that_the_consumer_is_gone() {
    let mut core = val::Core::<u32>::new();
    assert!(matches!(core.completer_receive(Callback::new(|_i: FutureResult<()>| {})), Notify::Nothing));
    match core.cancel() {
        Notify::Invoke(_, interest) => {
            let e: FutureError = interest.unwrap_err();
            assert!(e.is_cancelation_error());
            assert_eq!(e.desc, "canceled by consumer");
        }
        _ => panic!("the producer waits"),
    }
    assert!(core.canceled);
    match core.completer_receive(Callback::new(|_i: FutureResult<()>| {})) {
        Notify::Invoke(_, interest) => assert!(interest.unwrap_err().is_cancelation_error()),
        _ => panic!("the consumer is gone"),
    }
    let e = core.interest().unwrap().unwrap_err();
    assert_eq!(e.desc, "canceled by consumer");
    assert_eq!(val::gone().desc, "canceled by consumer");
}

#[test]
fn core_wakes_a_sleeping_producer() {
    let mut core = val::Core::<u32>::new();
    let mut out = Awaited { registered: false, outcome: None };
    assert!(core.try_await(&mut out));
    assert!(out.registered);
    assert!(matches!(core.completion, Completion::CompleterWait(WaitStrategy::Sync)));
    // Nothing has happened: the wait goes on
    assert!(core.try_await(&mut out));

    assert!(matches!(core.notice(), Notify::Signal));
    assert!(!core.try_await(&mut out));
    assert_eq!(out.outcome, Some(Interest::Shown));

    // A producer that comes once the consumer is gone does not wait
    let mut core = val::Core::<u32>::new();
    assert!(matches!(core.cancel(), Notify::Nothing));
    let mut out = Awaited { registered: false, outcome: None };
    assert!(!core.try_await(&mut out));
    assert_eq!(out.outcome, Some(Interest::Gone));
}

#[test]
fn core_wait_parts_are_taken_out_once() {
    let mut core = val::Core::<u32>::new();
    assert!(matches!(core.take_consumer_wait(), Completion::Pending));
    assert!(matches!(core.take_completer_wait(), Completion::Pending));
    core.completion = Completion::ConsumerWait(WaitStrategy::Sync);
    assert!(matches!(core.take_completer_wait(), Completion::Pending));
    assert!(matches!(core.take_consumer_wait(), Completion::ConsumerWait(WaitStrategy::Sync)));
    assert!(core.completion.is_pending());
    core.put(Ok(4));
    assert_eq!(core.take_value().unwrap().unwrap(), 4);
}

#[test]
fn sequence_core_consumer_state_table() {
    let mut core = sequence::Core::<u32>::new();
    // Pending, whatever the cell holds
    assert!(core.is_pending());
    assert_eq!(core.consumer_state(), ConsumerState::Ready);
    core.put(1);
    assert_eq!(core.consumer_state(), ConsumerState::Ready);
    // The producer waits
    core.producer = Some(WaitStrategy::Sync);
    assert!(!core.is_pending());
    assert_eq!(core.consumer_state(), ConsumerState::Full);
    assert!(matches!(core.take_head(), Some(Head::More(1))));
    assert_eq!(core.consumer_state(), ConsumerState::Ready);
    // The consumer waits
    core.consumer = Some(WaitStrategy::Sync);
    assert!(core.is_consumer_wait());
    assert!(!core.is_callback());
    assert_eq!(core.consumer_state(), ConsumerState::Waiting);
}

#[test]
fn sequence_core_send_and_poll() {
    let mut core = sequence::Core::<u32>::new();
    assert!(matches!(core.offer(1), Ok(Notify::Nothing)));
    assert!(matches!(core.offer(2), Err(2)));
    let (head, notice) = core.poll();
    assert!(matches!(head, Some(Head::More(1))));
    assert!(matches!(notice, Notify::Nothing));
    let (head, _) = core.poll();
    assert!(head.is_none());
    assert!(matches!(core.send(3), Notify::Nothing));
    assert!(matches!(core.leave(), Some(Head::More(3))));
}

#[test]
fn sequence_core_end_follows_the_last_value() {
    let mut core = sequence::Core::<u32>::new();
    assert!(matches!(core.offer(1), Ok(Notify::Nothing)));
    assert!(matches!(core.done(), Notify::Nothing));
    assert!(core.closed);
    assert!(matches!(core.offer(2), Err(2)));
    assert!(matches!(core.poll().0, Some(Head::More(1))));
    assert!(matches!(core.poll().0, Some(Head::Done)));
    assert!(core.poll().0.is_none());
    assert!(matches!(core.offer(3), Err(3)));
    assert_eq!(Head::More(5).into_value(), Some(5));
    assert_eq!(Head::<u32>::Done.into_value(), None);
}

#[test]
fn sequence_core_sleeping_consumer() {
    let mut core = sequence::Core::<u32>::new();
    assert!(matches!(core.begin_take(), Notify::Nothing));
    assert!(core.is_consumer_wait());
    let mut out = Taking { head: None, notice: Notify::Nothing };
    assert!(core.try_take(&mut out));
    assert!(matches!(core.offer(8), Ok(Notify::Signal)));
    assert!(!core.try_take(&mut out));
    assert!(matches!(out.head, Some(Head::More(8))));
    assert!(core.is_pending());
}

#[test]
fn sequence_core_producer_sees_changes_only() {
    let mut core = sequence::Core::<u32>::new();
    // Nothing seen yet
    assert_eq!(core.glance(), Some(Some(ConsumerState::Ready)));
    assert_eq!(core.last_observed, ConsumerState::Ready);
    assert_eq!(core.glance(), None);

    let mut out = None;
    assert!(core.try_observe(&mut out));
    assert!(out.is_none());
    assert!(matches!(core.producer, Some(WaitStrategy::Sync)));

    // The consumer starts to sleep: the producer is woken and looks
    assert!(matches!(core.begin_take(), Notify::Signal));
    assert!(!core.try_observe(&mut out));
    assert_eq!(out, Some(Some(ConsumerState::Waiting)));
    assert!(core.producer.is_none());
}

#[test]
fn sequence_core_cancel_tells_the_producer() {
    let mut core = sequence::Core::<u32>::new();
    assert_eq!(core.glance(), Some(Some(ConsumerState::Ready)));
    assert!(matches!(
        core.producer_receive(Callback::new(|_s: Option<ConsumerState>| {})),
        Notify::Nothing
    ));
    match core.cancel() {
        Notify::Invoke(_, state) => assert!(state.is_none()),
        _ => panic!("the producer waits"),
    }
    assert!(core.canceled);
    assert_eq!(core.glance(), Some(None));
    assert!(matches!(core.offer(1), Err(1)));
    match core.producer_receive(Callback::new(|_s: Option<ConsumerState>| {})) {
        Notify::Invoke(_, state) => assert!(state.is_none()),
        _ => panic!("the consumer is gone"),
    }
}

#[test]
fn sequence_core_callback_gets_the_value_directly() {
    let (tx, rx) = channel();
    let mut core = sequence::Core::<u32>::new();
    let (notice, delivery) = core.receive(Callback::new(move |v: Option<u32>| tx.send(v).unwrap()));
    assert!(matches!(notice, Notify::Nothing));
    assert!(matches!(delivery, Notify::Nothing));
    assert!(core.is_callback());
    match core.send(6) {
        Notify::Invoke(cb, val) => cb.call(val),
        _ => panic!("the callback waits"),
    }
    assert_eq!(rx.recv().unwrap(), Some(6));
    assert!(core.head.is_none());
    assert!(core.take_callback().is_none());
}
