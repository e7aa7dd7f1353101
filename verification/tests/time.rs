use linux::kty::timespec;
use linux::time::{time_from_timespec, time_to_timespec, Time};

#[test]
fn milliseconds_exact() {
    let t = Time::milliseconds(50);
    assert_eq!(t.seconds, 0);
    assert_eq!(t.nanoseconds, 50_000_000);
    let t = Time::milliseconds(2_500);
    assert_eq!(t.seconds, 2);
    assert_eq!(t.nanoseconds, 500_000_000);
}

#[test]
fn constructors_carry_sign() {
    let t = Time::nanoseconds(-1_500_000_000);
    assert_eq!(t.seconds, -1);
    assert_eq!(t.nanoseconds, -500_000_000);
    let t = Time::microseconds(-1_500_000);
    assert_eq!(t.seconds, -1);
    assert_eq!(t.nanoseconds, -500_000_000);
    let t = Time::seconds(-3);
    assert_eq!(t.nanoseconds, 0);
}

#[test]
fn larger_units_exact() {
    assert_eq!(Time::minutes(2).seconds, 120);
    assert_eq!(Time::hours(2).seconds, 7200);
    assert_eq!(Time::days(2).seconds, 172800);
    // the multiplication wraps like the machine's
    assert_eq!(Time::days(i64::MAX).seconds, i64::MAX.wrapping_mul(86400));
}

#[test]
fn normalize_brings_nanos_into_range() {
    let t = Time { seconds: 0, nanoseconds: -1 }.normalize();
    assert_eq!(t.seconds, -1);
    assert_eq!(t.nanoseconds, 999_999_999);
    let t = Time { seconds: 1, nanoseconds: 2_000_000_001 }.normalize();
    assert_eq!(t.seconds, 3);
    assert_eq!(t.nanoseconds, 1);
    let t = Time { seconds: 5, nanoseconds: 6 }.normalize();
    assert_eq!(t, Time { seconds: 5, nanoseconds: 6 });
}

#[test]
fn normalize_saturates_at_extremes() {
    let t = Time { seconds: i64::MAX, nanoseconds: 1_000_000_000 }.normalize();
    assert_eq!(t.seconds, i64::MAX);
    assert_eq!(t.nanoseconds, 0);
}

#[test]
fn sum_and_difference() {
    let a = Time::milliseconds(1_500);
    let b = Time::milliseconds(700);
    let s = a.plus(b);
    assert_eq!(s.seconds, 2);
    assert_eq!(s.nanoseconds, 200_000_000);
    let d = a.minus(b);
    assert_eq!(d.seconds, 0);
    assert_eq!(d.nanoseconds, 800_000_000);
    let d = b.minus(a);
    assert_eq!(d.seconds, -1);
    assert_eq!(d.nanoseconds, 200_000_000);
}

#[test]
fn order_is_by_value() {
    let a = Time { seconds: 1, nanoseconds: 0 };
    let b = Time { seconds: 0, nanoseconds: 1_000_000_001 };
    // b normalizes to 1 s + 1 ns, so a comes first
    assert!(a.lt(&b));
    assert!(!b.lt(&a));
    assert!(!a.lt(&a));
}

#[test]
fn timespec_round_trip() {
    let t = Time { seconds: 9, nanoseconds: 17 };
    let ts = time_to_timespec(t);
    assert_eq!(ts.tv_sec, 9);
    assert_eq!(ts.tv_nsec, 17);
    let back = time_from_timespec(ts);
    assert_eq!(back, t);
    let ts = timespec { tv_sec: -4, tv_nsec: 5 };
    let t = time_from_timespec(ts);
    assert_eq!(t.seconds, -4);
    assert_eq!(t.nanoseconds, 5);
}
