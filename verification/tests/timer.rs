use linux::fd::FdContainer;
use linux::kty::{itimerspec, timespec, TFD_TIMER_ABSTIME};
use linux::time::Time;
use linux::timer::Timer;

#[test]
fn timer_ownership() {
    let t = Timer::from_owned(5);
    assert!(t.is_owned());
    assert_eq!(t.borrow(), 5);
    let t = Timer::from_borrowed(5);
    assert!(!t.is_owned());
}

#[test]
fn arming_settings() {
    let t = Timer::from_borrowed(5);

    let c = t.disable();
    assert_eq!(c.flags, 0);
    assert_eq!(c.arg.it_value.tv_sec, 0);
    assert_eq!(c.arg.it_value.tv_nsec, 0);
    assert_eq!(c.arg.it_interval.tv_sec, 0);

    let c = t.interval(Time::milliseconds(250));
    assert_eq!(c.flags, 0);
    assert_eq!(c.arg.it_interval.tv_nsec, 250_000_000);
    assert_eq!(c.arg.it_value.tv_nsec, 250_000_000);

    let c = t.interval_from(Time::seconds(1), Time::seconds(100));
    assert_eq!(c.flags, TFD_TIMER_ABSTIME);
    assert_eq!(c.arg.it_interval.tv_sec, 1);
    assert_eq!(c.arg.it_value.tv_sec, 100);

    let c = t.interval_in(Time::seconds(1), Time::seconds(2));
    assert_eq!(c.flags, 0);
    assert_eq!(c.arg.it_value.tv_sec, 2);

    let c = t.once_at(Time::seconds(100));
    assert_eq!(c.flags, TFD_TIMER_ABSTIME);
    assert_eq!(c.arg.it_interval.tv_sec, 0);
    assert_eq!(c.arg.it_interval.tv_nsec, 0);
    assert_eq!(c.arg.it_value.tv_sec, 100);

    let c = t.once_in(Time::milliseconds(50));
    assert_eq!(c.flags, 0);
    assert_eq!(c.arg.it_value.tv_nsec, 50_000_000);
}

#[test]
fn status_decoding() {
    let t = Timer::from_borrowed(5);
    let arg = itimerspec {
        it_interval: timespec { tv_sec: 1, tv_nsec: 2 },
        it_value: timespec { tv_sec: 3, tv_nsec: 4 },
    };
    let (iv, next) = t.status(arg);
    assert_eq!(iv, Time { seconds: 1, nanoseconds: 2 });
    assert_eq!(next, Time { seconds: 3, nanoseconds: 4 });
}

#[test]
fn tick_count_decoding() {
    let t = Timer::from_borrowed(5);
    assert_eq!(t.ticks(&[3, 0, 0, 0, 0, 0, 0, 0]), Some(3));
    assert_eq!(t.ticks(&[0, 1, 0, 0, 0, 0, 0, 0, 9]), Some(256));
    assert_eq!(t.ticks(&[1, 2, 3]), None);
}
