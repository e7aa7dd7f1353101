use linux::lock::{Lock, LockStatus, remaining_time, timeout_error};
use linux::result::{Errno, EBUSY, ETIMEDOUT};
use linux::time::Time;

#[test]
fn fresh_lock_try_lock_succeeds_exactly_once() {
    let mut lock = Lock::new();
    assert_eq!(lock.status(), LockStatus::Unlocked);
    let guard = lock.try_lock();
    let guard = guard.unwrap_or_else(|_| panic!("fresh lock must be acquirable"));
    assert_eq!(lock.status(), LockStatus::Locked);
    // every further attempt before release reports "resource busy"
    assert_eq!(lock.try_lock().err(), Some(Errno(EBUSY)));
    assert_eq!(lock.try_lock().err(), Some(Errno(EBUSY)));
    assert_eq!(lock.status(), LockStatus::Locked);
    let woke = lock.unlock(guard);
    assert!(!woke);
    assert_eq!(lock.status(), LockStatus::Unlocked);
    // after the release it can be taken again
    assert!(lock.try_lock().is_ok());
}

#[test]
fn uncontended_release_never_wakes() {
    let mut lock = Lock::new();
    let guard = lock.try_lock().ok().unwrap();
    let woke = lock.unlock(guard);
    assert!(!woke);
}

#[test]
fn contended_release_always_wakes() {
    let mut lock = Lock::new();
    let guard = lock.acquire_fast().unwrap();
    // a second acquirer observes the lock held and marks it contended
    // before blocking
    let must_wait = lock.mark_contended(1);
    assert!(must_wait);
    assert_eq!(lock.status(), LockStatus::Waiting);
    let woke = lock.unlock(guard);
    assert!(woke);
    assert_eq!(lock.status(), LockStatus::Unlocked);
    // the woken waiter re-acquires keeping the contended marker
    let guard2 = lock.acquire_contended().unwrap();
    assert_eq!(lock.status(), LockStatus::Waiting);
    let woke2 = lock.unlock(guard2);
    assert!(woke2);
}

#[test]
fn acquire_fails_while_held() {
    let mut lock = Lock::new();
    let guard = lock.acquire_fast().unwrap();
    assert!(lock.acquire_fast().is_none());
    assert!(lock.acquire_contended().is_none());
    let _ = lock.unlock(guard);
}

#[test]
fn mark_contended_skips_wait_when_freed() {
    let mut lock = Lock::new();
    // the lock went back to unlocked between the failed fast path and the
    // marking attempt: the caller must not block
    let must_wait = lock.mark_contended(1);
    assert!(!must_wait);
    assert_eq!(lock.status(), LockStatus::Unlocked);
}

#[test]
fn remaining_time_until_deadline() {
    let deadline = Time::seconds(10);
    let early = Time::seconds(4);
    let r = remaining_time(deadline, early).unwrap();
    assert_eq!(r, Time::seconds(6));
    assert_eq!(remaining_time(deadline, Time::seconds(10)), None);
    assert_eq!(remaining_time(deadline, Time::seconds(11)), None);
    assert_eq!(timeout_error(), Errno(ETIMEDOUT));
}
