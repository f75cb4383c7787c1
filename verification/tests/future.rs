use pythia::future::val::Completer;
use pythia::future::{future, Cancel, Future, FutureError, FutureErrorKind, FutureResult, FutureVal};
use std::sync::atomic::{AtomicBool, Ordering};
use std::sync::mpsc::channel;
use std::sync::Arc;
use std::time::Duration;

#[test]
fn test_and() {
}

#[test]
fn error_kinds_are_told_apart() {
    let e = FutureError::execution("nope");
    assert!(e.is_execution_error());
    assert!(!e.is_cancelation_error());
    assert_eq!(e.kind, FutureErrorKind::ExecutionError);
    assert_eq!(e.desc, "nope");

    let c = FutureError::cancelation("gone");
    assert!(c.is_cancelation_error());
    assert!(!c.is_execution_error());
    assert_eq!(c.kind, FutureErrorKind::CancelationError);
    assert_eq!(c.desc, "gone");
}

#[test]
fn map_applies_the_function_to_the_value() {
    let (f, c) = future::<u32>();
    let m = f.map(|v: u32| v * 2);

    c.complete(21);
    assert_eq!(m.take().unwrap(), 42);
}

#[test]
fn map_reaches_a_callback_that_came_first() {
    let (f, c) = future::<u32>();
    let (tx, rx) = channel();

    f.map(|v: u32| v + 1).receive(move |v: FutureResult<u32>| tx.send(v.unwrap()).unwrap());
    assert!(rx.try_recv().is_err());

    c.complete(1);
    assert_eq!(rx.recv().unwrap(), 2);
}

#[test]
fn map_passes_an_error_through_unchanged() {
    let (f, c) = future::<u32>();
    let m = f.map(|v: u32| v * 2);
    c.fail("nope");
    let err = m.take().unwrap_err();
    assert!(err.is_execution_error());
    assert_eq!(err.desc, "nope");

    let (f, c) = future::<u32>();
    let m = f.map(|v: u32| v * 2);
    Cancel::cancel(c);
    let err = m.take().unwrap_err();
    assert!(err.is_cancelation_error());
    assert_eq!(err.desc, "canceled by producer");
}

#[test]
fn map_asks_nothing_before_someone_listens() {
    let (f, c) = future::<u32>();
    let asked = Arc::new(AtomicBool::new(false));
    let asked2 = asked.clone();

    c.receive(move |c: FutureResult<Completer<u32>>| {
        asked2.store(true, Ordering::Relaxed);
        c.unwrap().complete(5);
    });

    let m = f.map(|v: u32| v + 10);
    assert!(!asked.load(Ordering::Relaxed));

    assert_eq!(m.take().unwrap(), 15);
    assert!(asked.load(Ordering::Relaxed));
}

#[test]
fn and_then_chains_the_second_future() {
    let (f, c) = future::<u32>();
    let chained = f.and_then(|v: u32| -> FutureVal<String> {
        let (f2, c2) = future::<String>();
        c2.complete(format!("got {}", v));
        f2
    });

    c.complete(3);
    assert_eq!(chained.take().unwrap(), "got 3");
}

#[test]
fn and_then_skips_the_function_on_an_error() {
    let (f, c) = future::<u32>();
    let called = Arc::new(AtomicBool::new(false));
    let called2 = called.clone();
    let chained = f.and_then(move |v: u32| -> FutureVal<u32> {
        called2.store(true, Ordering::Relaxed);
        let (f2, c2) = future::<u32>();
        c2.complete(v);
        f2
    });

    c.fail("nope");
    let err = chained.take().unwrap_err();
    assert!(err.is_execution_error());
    assert_eq!(err.desc, "nope");
    assert!(!called.load(Ordering::Relaxed));
}

#[test]
fn and_then_passes_the_second_error_on() {
    let (f, c) = future::<u32>();
    let chained = f.and_then(|_v: u32| -> FutureVal<u32> {
        let (f2, c2) = future::<u32>();
        c2.fail("second");
        f2
    });

    c.complete(1);
    let err = chained.take().unwrap_err();
    assert!(err.is_execution_error());
    assert_eq!(err.desc, "second");
}

#[test]
fn take_timed_returns_a_value_that_is_there() {
    let (f, c) = future::<u32>();
    c.complete(8);
    assert_eq!(f.take_timed(Duration::from_millis(10)).unwrap(), 8);
}

#[test]
fn take_timed_gives_the_future_up_after_the_timeout() {
    let (f, c) = future::<u32>();

    let err = f.take_timed(Duration::from_millis(10)).unwrap_err();
    assert!(err.is_cancelation_error());
    assert_eq!(err.desc, "timed out");

    // The producer finds the consumer gone
    let err = match c.take() {
        Err(e) => e,
        Ok(_) => panic!("the consumer is gone"),
    };
    assert!(err.is_cancelation_error());
    assert_eq!(err.desc, "canceled by consumer");
}

#[test]
fn completer_take_timed_cancels_after_the_timeout() {
    let (f, c) = future::<u32>();

    assert!(c.take_timed(Duration::from_millis(10)).is_err());

    let err = f.take().unwrap_err();
    assert!(err.is_cancelation_error());
    assert_eq!(err.desc, "timed out");
}

#[test]
fn completer_try_take_tells_whether_the_consumer_waits() {
    let (f, c) = future::<u32>();
    let c = match c.try_take() {
        Err(c) => c,
        Ok(_) => panic!("no interest yet"),
    };

    let (tx, rx) = channel();
    f.receive(move |v: FutureResult<u32>| tx.send(v.unwrap()).unwrap());

    match c.try_take() {
        Ok(Ok(c)) => c.complete(4),
        _ => panic!("the consumer waits"),
    }
    assert_eq!(rx.recv().unwrap(), 4);
}
