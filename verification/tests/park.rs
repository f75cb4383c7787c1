use pythia::sync::park::{deadline_after, ms_to_abs, remaining, Timespec};
use pythia::sync::Park;

#[test]
fn unpark_before_park_is_absorbed() {
    let p = Park::new();
    p.unpark();
    // The permit is there: this returns without sleeping
    p.park();
    // and so does a second unpark
    p.unpark();
    p.unpark();
    p.park_ms(1000);
}

#[test]
fn park_ms_returns_after_the_timeout() {
    let p = Park::new();
    p.park_ms(20);
}

#[test]
fn deadline_adds_the_milliseconds() {
    let now = Timespec { sec: 10, nsec: 0 };
    assert_eq!(deadline_after(now, 0), Timespec { sec: 10, nsec: 0 });
    assert_eq!(deadline_after(now, 1), Timespec { sec: 10, nsec: 1_000_000 });
    assert_eq!(deadline_after(now, 1_000), Timespec { sec: 11, nsec: 0 });
    assert_eq!(deadline_after(now, 2_500), Timespec { sec: 12, nsec: 500_000_000 });
}

#[test]
fn deadline_carries_the_nanoseconds() {
    let now = Timespec { sec: 10, nsec: 999_000_000 };
    assert_eq!(deadline_after(now, 1), Timespec { sec: 11, nsec: 0 });
    assert_eq!(deadline_after(now, 1_999), Timespec { sec: 12, nsec: 998_000_000 });
}

#[test]
fn deadline_caps_the_whole_seconds() {
    let now = Timespec { sec: 0, nsec: 0 };
    assert_eq!(deadline_after(now, 1_000_000_000), Timespec { sec: 1_000_000, nsec: 0 });
    assert_eq!(deadline_after(now, 2_000_000_500), Timespec { sec: 1_000_000, nsec: 500_000_000 });
}

#[test]
fn deadline_saturates_the_seconds() {
    let now = Timespec { sec: i64::MAX, nsec: 999_999_999 };
    assert_eq!(deadline_after(now, 1), Timespec { sec: i64::MAX, nsec: 999_999 });
}

#[test]
fn remaining_is_the_difference() {
    let now = Timespec { sec: 10, nsec: 900_000_000 };
    assert_eq!(remaining(Timespec { sec: 12, nsec: 100_000_000 }, now), (1, 200_000_000));
    assert_eq!(remaining(Timespec { sec: 10, nsec: 900_000_001 }, now), (0, 1));
    assert_eq!(remaining(Timespec { sec: 11, nsec: 900_000_000 }, now), (1, 0));
}

#[test]
fn remaining_is_zero_once_the_time_has_passed() {
    let now = Timespec { sec: 10, nsec: 5 };
    assert_eq!(remaining(now, now), (0, 0));
    assert_eq!(remaining(Timespec { sec: 9, nsec: 999_999_999 }, now), (0, 0));
    assert_eq!(remaining(Timespec { sec: 10, nsec: 4 }, now), (0, 0));
}

#[test]
fn remaining_spans_the_whole_range() {
    let early = Timespec { sec: i64::MIN, nsec: 0 };
    let late = Timespec { sec: i64::MAX, nsec: 0 };
    assert_eq!(remaining(late, early), (u64::MAX, 0));
}

#[test]
fn ms_to_abs_is_in_the_future() {
    let a = ms_to_abs(0);
    let b = ms_to_abs(5_000);
    assert!(0 <= b.nsec && b.nsec < 1_000_000_000);
    // five seconds ahead of a, but for the time between the two calls
    let (secs, _) = remaining(b, a);
    assert!(secs == 4 || secs == 5);
}
