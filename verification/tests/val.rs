use pythia::future::val::{future, Completer};
use pythia::future::FutureResult;
use std::sync::atomic::{AtomicBool, AtomicUsize, Ordering};
use std::sync::mpsc::channel;
use std::sync::Arc;

#[test]
fn val_test_complete_before_take() {
    let (f, c) = future();

    c.complete("zomg");

    assert_eq!(f.take().unwrap(), "zomg");
}

#[test]
fn val_test_complete_before_receive() {
    let (f, c) = future();
    let (tx, rx) = channel::<&'static str>();

    c.complete("zomg");

    f.receive(move |v: FutureResult<&'static str>| tx.send(v.unwrap()).unwrap());
    assert_eq!(rx.recv().unwrap(), "zomg");
}

#[test]
fn val_test_complete_after_receive() {
    let (f, c) = future();
    let (tx, rx) = channel::<&'static str>();

    f.receive(move |v: FutureResult<&'static str>| tx.send(v.unwrap()).unwrap());
    assert!(rx.try_recv().is_err());

    c.complete("zomg");
    assert_eq!(rx.recv().unwrap(), "zomg");
}

#[test]
fn test_receive_complete_future_before_take() {
    let (f, c) = future::<&'static str>();
    let w1 = Arc::new(AtomicBool::new(false));
    let w2 = w1.clone();

    c.receive(move |c: FutureResult<Completer<&'static str>>| {
        assert!(w2.load(Ordering::Relaxed));
        c.unwrap().complete("zomg");
    });

    w1.store(true, Ordering::Relaxed);
    assert_eq!(f.take().unwrap(), "zomg");
}

#[test]
fn val_test_receive_complete_before_consumer_receive() {
    let (f, c) = future();
    let w1 = Arc::new(AtomicBool::new(false));
    let w2 = w1.clone();

    c.receive(move |c: FutureResult<Completer<&'static str>>| {
        assert!(w2.load(Ordering::Relaxed));
        c.unwrap().complete("zomg");
    });

    let (tx, rx) = channel();
    w1.store(true, Ordering::Relaxed);

    f.receive(move |msg: FutureResult<&'static str>| {
        assert_eq!("zomg", msg.unwrap());
        tx.send("hi2u").unwrap();
    });

    assert_eq!("hi2u", rx.recv().unwrap());
}

#[test]
fn test_take_complete_after_consumer_receive() {
    let (f, c) = future();
    let (tx, rx) = channel::<&'static str>();

    f.receive(move |v: FutureResult<&'static str>| tx.send(v.unwrap()).unwrap());

    c.take().unwrap().complete("zomg");
    assert_eq!(rx.recv().unwrap(), "zomg");
}

// Utility function used below
fn waiting(count: usize, d: Arc<AtomicUsize>, c: Completer<&'static str>) {
    // Assert that the callback is not invoked recursively
    assert_eq!(0, d.fetch_add(1, Ordering::Relaxed));

    if count == 5 {
        c.complete("done");
    } else {
        let d2 = d.clone();
        c.receive(move |c: FutureResult<Completer<&'static str>>| {
            waiting(count + 1, d2, c.unwrap())
        });
    }

    d.fetch_sub(1, Ordering::Relaxed);
}

#[test]
fn test_completer_receive_when_consumer_cb_set() {
    let (f, c) = future();
    let (tx, rx) = channel::<&'static str>();
    let depth = Arc::new(AtomicUsize::new(0));

    waiting(0, depth, c);

    f.receive(move |v: FutureResult<&'static str>| tx.send(v.unwrap()).unwrap());
    assert_eq!(rx.recv().unwrap(), "done");
}

#[test]
fn test_completer_receive_when_consumer_waiting() {
    let (f, c) = future();
    let depth = Arc::new(AtomicUsize::new(0));

    waiting(0, depth, c);

    assert_eq!(f.take().unwrap(), "done");
}

#[test]
fn test_canceling_future_before_producer_receive() {
    let (f, c) = future::<usize>();
    let (tx, rx) = channel();

    f.cancel();

    c.receive(move |c: FutureResult<Completer<usize>>| {
        match c {
            Err(e) => assert!(e.is_cancelation_error()),
            _ => panic!("nope"),
        }

        tx.send("done").unwrap();
    });

    assert_eq!(rx.recv().unwrap(), "done");
}

#[test]
fn test_canceling_future_before_producer_await() {
    let (f, c) = future::<usize>();

    f.cancel();

    assert!(c.take().is_err());
}

#[test]
fn test_canceling_future_after_producer_receive() {
    let (f, c) = future::<usize>();
    let (tx, rx) = channel();

    c.receive(move |c: FutureResult<Completer<usize>>| {
        assert!(c.is_err());
        tx.send("done").unwrap();
    });

    assert!(rx.try_recv().is_err());
    f.cancel();
    assert_eq!(rx.recv().unwrap(), "done");
}

#[test]
fn test_canceling_producer_then_receive() {
    let (f, c) = future::<usize>();
    let (tx, rx) = channel();

    c.cancel();

    f.receive(move |res: FutureResult<usize>| {
        assert!(res.is_err());
        assert!(res.unwrap_err().is_cancelation_error());
        tx.send("done").unwrap();
    });

    assert_eq!(rx.recv().unwrap(), "done");
}

#[test]
fn test_producer_fail_consumer_receive() {
    let (f, c) = future::<usize>();

    c.fail("nope");

    let err = f.take().unwrap_err();
    assert!(err.is_execution_error());
    assert!(!err.is_cancelation_error());
    assert_eq!(err.desc, "nope");
}

#[test]
fn test_panic_cancels_future() {
}

#[test]
fn try_take_returns_the_future_until_the_value_is_there() {
    let (f, c) = future::<u32>();
    assert!(!f.is_complete());
    let f = match f.try_take() {
        Ok(_) => panic!("no value yet"),
        Err(f) => f,
    };
    c.complete(7);
    assert!(f.is_complete());
    match f.try_take() {
        Ok(v) => assert_eq!(v.unwrap(), 7),
        Err(_) => panic!("value expected"),
    }
}

#[test]
fn val_test_receive_complete_after_consumer_receive() {
    let (f, c) = future();
    let w1 = Arc::new(AtomicBool::new(false));
    let w2 = w1.clone();

    let (tx, rx) = channel();
    w1.store(true, Ordering::Relaxed);

    f.receive(move |msg: FutureResult<&'static str>| {
        assert_eq!("zomg", msg.unwrap());
        tx.send("hi2u").unwrap();
    });

    c.receive(move |c: FutureResult<Completer<&'static str>>| {
        assert!(w2.load(Ordering::Relaxed));
        c.unwrap().complete("zomg");
    });

    assert_eq!("hi2u", rx.recv().unwrap());
}

#[test]
fn test_completer_take_when_consumer_cb_set() {
    let (f, c) = future();
    let (tx, rx) = channel::<&'static str>();

    f.receive(move |v: FutureResult<&'static str>| tx.send(v.unwrap()).unwrap());

    c.take().unwrap().take().unwrap().take().unwrap().complete("zomg");
    assert_eq!(rx.recv().unwrap(), "zomg");
}

#[test]
fn test_future_receive_test_complete_before_receive() {
    let (f, c) = future::<&'static str>();
    let (tx, rx) = channel();

    c.complete("zomg");

    f.receive(move |v: FutureResult<&'static str>| tx.send(v.unwrap()).unwrap());
    assert_eq!(rx.recv().unwrap(), "zomg");
}

#[test]
fn test_future_receive_test_complete_after_receive() {
    let (f, c) = future::<&'static str>();
    let (tx, rx) = channel();

    f.receive(move |v: FutureResult<&'static str>| tx.send(v.unwrap()).unwrap());
    c.complete("zomg");

    assert_eq!(rx.recv().unwrap(), "zomg");
}

#[test]
fn test_future_receive_test_receive_complete_before_consumer_receive() {
    let (f, c) = future::<&'static str>();
    let w1 = Arc::new(AtomicBool::new(false));
    let w2 = w1.clone();

    c.receive(move |c: FutureResult<Completer<&'static str>>| {
        assert!(w2.load(Ordering::Relaxed));
        c.unwrap().complete("zomg");
    });

    let (tx, rx) = channel();
    w1.store(true, Ordering::Relaxed);

    f.receive(move |res: FutureResult<&'static str>| {
        assert_eq!("zomg", res.unwrap());
        tx.send("hi2u").unwrap();
    });

    assert_eq!("hi2u", rx.recv().unwrap());
}

#[test]
fn test_future_receive_test_receive_complete_after_consumer_receive() {
    let (f, c) = future::<&'static str>();
    let w1 = Arc::new(AtomicBool::new(false));
    let w2 = w1.clone();

    let (tx, rx) = channel();
    w1.store(true, Ordering::Relaxed);

    f.receive(move |res: FutureResult<&'static str>| {
        assert_eq!("zomg", res.unwrap());
        tx.send("hi2u").unwrap();
    });

    c.receive(move |c: FutureResult<Completer<&'static str>>| {
        assert!(w2.load(Ordering::Relaxed));
        c.unwrap().complete("zomg");
    });

    assert_eq!("hi2u", rx.recv().unwrap());
}

#[test]
fn test_await_complete_after_consumer_receive() {
    let (f, c) = future::<&'static str>();
    let (tx, rx) = channel();

    f.receive(move |res: FutureResult<&'static str>| tx.send(res.unwrap()).unwrap());

    c.take().unwrap().complete("zomg");

    assert_eq!(rx.recv().unwrap(), "zomg");
}

#[test]
fn test_future_receive_test_producer_receive_when_consumer_cb_set() {
    let (f, c) = future::<&'static str>();
    let (tx, rx) = channel();
    let depth = Arc::new(AtomicUsize::new(0));

    waiting(0, depth, c);

    f.receive(move |res: FutureResult<&'static str>| tx.send(res.unwrap()).unwrap());

    assert_eq!(rx.recv().unwrap(), "done");
}

#[test]
fn test_producer_receive_when_consumer_waiting() {
    let (f, c) = future::<&'static str>();
    let depth = Arc::new(AtomicUsize::new(0));

    waiting(0, depth, c);

    assert_eq!(f.take().unwrap(), "done");
}

#[test]
fn test_producer_await_when_consumer_receive() {
    let (f, c) = future::<&'static str>();
    let (tx, rx) = channel();

    f.receive(move |res: FutureResult<&'static str>| tx.send(res.unwrap()).unwrap());

    c.take().unwrap().take().unwrap().take().unwrap().complete("zomg");

    assert_eq!(rx.recv().unwrap(), "zomg");
}

#[test]
fn a_producer_that_renews_its_callback_often_is_served_one_at_a_time() {
    fn renew(left: usize, d: Arc<AtomicUsize>, c: Completer<usize>) {
        assert_eq!(0, d.fetch_add(1, Ordering::Relaxed));
        if left == 0 {
            c.complete(7);
        } else {
            let d2 = d.clone();
            c.receive(move |c: FutureResult<Completer<usize>>| renew(left - 1, d2, c.unwrap()));
        }
        d.fetch_sub(1, Ordering::Relaxed);
    }

    let (f, c) = future::<usize>();
    let depth = Arc::new(AtomicUsize::new(0));
    // Deep enough to run out of stack if the callbacks were nested
    renew(100_000, depth, c);

    assert_eq!(f.take().unwrap(), 7);
}

#[test]
fn complete_for_a_consumer_that_is_gone_is_kept_with_the_state() {
    let (f, c) = future::<u32>();
    f.cancel();
    c.complete(3);
}
