use linux::result::{to_result, Errno, EINTR};
use linux::retry::{retry, retry_step, RawOp, RetryPolicy};

#[test]
fn to_result_zero_and_positive() {
    assert_eq!(to_result(0), Ok(0));
    assert_eq!(to_result(1), Ok(1));
    assert_eq!(to_result(7), Ok(7));
    assert_eq!(to_result(i64::MAX), Ok(i64::MAX));
}

#[test]
fn to_result_negative() {
    assert_eq!(to_result(-1), Err(Errno(1)));
    assert_eq!(to_result(-4), Err(Errno(4)));
    assert_eq!(to_result(-110), Err(Errno(110)));
    assert_eq!(to_result(-(i64::MAX)), Err(Errno(i64::MAX as u64)));
}

#[test]
fn to_result_extreme_negative() {
    // the most negative representable word still decodes to its exact
    // magnitude
    assert_eq!(to_result(i64::MIN), Err(Errno(0x8000_0000_0000_0000)));
}

struct Stub {
    vals: Vec<i64>,
    at: usize,
}

impl RawOp for Stub {
    fn call(&mut self) -> i64 {
        let v = self.vals[self.at];
        self.at += 1;
        v
    }
}

#[test]
fn retry_absorbs_interrupted_when_enabled() {
    let mut op = Stub { vals: vec![-(EINTR as i64), -(EINTR as i64), 7], at: 0 };
    let r = retry(RetryPolicy::RetryOnInterrupt, &mut op);
    assert_eq!(r, Ok(7));
    assert_eq!(op.at, 3);
}

#[test]
fn retry_surfaces_interrupted_when_disabled() {
    let mut op = Stub { vals: vec![-(EINTR as i64), -(EINTR as i64), 7], at: 0 };
    let r = retry(RetryPolicy::FailOnInterrupt, &mut op);
    assert_eq!(r, Err(Errno(EINTR)));
    assert_eq!(op.at, 1);
}

#[test]
fn retry_never_retries_other_errors() {
    let mut op = Stub { vals: vec![-16, 7], at: 0 };
    let r = retry(RetryPolicy::RetryOnInterrupt, &mut op);
    assert_eq!(r, Err(Errno(16)));
    assert_eq!(op.at, 1);
}

#[test]
fn retry_step_decisions() {
    assert_eq!(retry_step(RetryPolicy::RetryOnInterrupt, -(EINTR as i64)), None);
    assert_eq!(
        retry_step(RetryPolicy::FailOnInterrupt, -(EINTR as i64)),
        Some(Err(Errno(EINTR)))
    );
    assert_eq!(retry_step(RetryPolicy::RetryOnInterrupt, 3), Some(Ok(3)));
    assert_eq!(retry_step(RetryPolicy::RetryOnInterrupt, -16), Some(Err(Errno(16))));
}
