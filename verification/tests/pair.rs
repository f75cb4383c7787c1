use pythia::future::pair::state::{
    as_consumed, as_wait_sync, is_canceled, is_complete, is_wait_sync, is_waiting,
};
use pythia::future::pair::{handles, is_last, next_take, pair, TakeStep};

#[test]
fn test_initial_state() {
    let (_f, c) = pair::<usize>();

    assert_eq!(c.ref_count(), 2);
}

#[test]
fn pair_test_complete_before_take() {
    let (f, c) = pair();

    c.complete("zomg");

    assert_eq!(f.take().unwrap(), "zomg");
}

#[test]
fn a_handle_that_has_done_its_work_is_not_counted() {
    let (f, c) = pair();
    assert_eq!(f.ref_count(), 2);

    c.complete(1u8);
    assert_eq!(f.ref_count(), 1);
}

#[test]
fn take_after_cancel_is_a_cancelation_error() {
    let (f, c) = pair::<u32>();

    c.cancel();

    let err = f.take().unwrap_err();
    assert!(err.is_cancelation_error());
    assert_eq!(err.desc, "canceled by producer");
}

#[test]
fn state_word_predicates() {
    // two handles, pending, nobody waits
    assert!(!is_complete(0x0200));
    assert!(!is_canceled(0x0200));
    assert!(!is_waiting(0x0200));
    assert!(!is_wait_sync(0x0200));

    assert!(is_complete(0x0201));
    assert!(is_canceled(0x0202));
    assert!(!is_complete(0x0203));

    assert!(is_waiting(0x0210));
    assert!(is_wait_sync(0x0210));
    assert!(is_waiting(0x0220));
    assert!(!is_wait_sync(0x0220));
    assert!(is_complete(0x0211));
}

#[test]
fn state_word_updates_keep_the_other_parts() {
    assert_eq!(as_consumed(0x0201), 0x0203);
    assert_eq!(as_consumed(0x0511), 0x0513);
    assert_eq!(as_consumed(0x0200), 0x0203);

    assert_eq!(as_wait_sync(0x0200), 0x0210);
    assert_eq!(as_wait_sync(0x0321), 0x0311);
    assert_eq!(as_wait_sync(0x0210), 0x0210);
}

#[test]
fn the_next_step_of_a_take() {
    assert_eq!(next_take(0x0201), TakeStep::Consume(0x0203));
    assert_eq!(next_take(0x0211), TakeStep::Consume(0x0213));
    assert_eq!(next_take(0x0202), TakeStep::Canceled);
    assert_eq!(next_take(0x0200), TakeStep::Announce(0x0210));
    assert_eq!(next_take(0x0210), TakeStep::Park);
}

#[test]
fn handles_are_counted_above_the_low_byte() {
    assert_eq!(handles(0x0200), 2);
    assert_eq!(handles(0x01ff), 1);
    assert_eq!(handles(0x00ff), 0);
    assert!(!is_last(0x0200));
    assert!(is_last(0x0100));
    assert!(is_last(0x0101));
}
