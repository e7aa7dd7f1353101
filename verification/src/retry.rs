//! The retry convention for interrupted kernel calls: a raw operation is
//! re-issued while it keeps reporting "interrupted", under a policy chosen
//! once per deployment rather than per call site.

use vstd::prelude::*;
use crate::result::{Errno, EINTR, spec_to_result, to_result};

verus! {

/// Whether `retry` re-issues an operation whose decoded error is
/// "interrupted". This is a deployment-level decision: the policy value is
/// injected once, not chosen at each call site.
#[derive(Clone, Copy, Debug, PartialEq, Eq, Structural)]
pub enum RetryPolicy {
    /// Loop on "interrupted"; any other error or a success ends the loop.
    RetryOnInterrupt,
    /// Issue the operation exactly once and decode whatever it returned.
    FailOnInterrupt,
}

/// A zero-argument kernel operation returning a raw signed word. The word
/// is whatever the kernel handed back; nothing is promised of its value,
/// so everything that interprets it must hold for every possible value.
///
/// The ghost `fuel` witnesses that "interrupted" is a transient condition:
/// each call that reports it strictly shrinks the fuel, so an operation
/// cannot be interrupted forever. It is specification-only state with no
/// runtime cost and no fixed retry limit.
pub trait RawOp {
    /// How many more consecutive "interrupted" results this operation may
    /// still produce. An implementation that does not say otherwise is
    /// never interrupted.
    open spec fn fuel(&self) -> nat {
        0
    }

    /// Issues the operation once.
    fn call(&mut self) -> (raw: i64)
        ensures
            raw == -(EINTR as int) ==> final(self).fuel() < old(self).fuel(),
    ;
}

/// The decision `retry` takes after one invocation: `None` means "issue
/// the operation again", `Some` carries the final decoded outcome.
pub open spec fn spec_retry_step(policy: RetryPolicy, raw: i64) -> Option<Result<i64, Errno>> {
    if policy is RetryOnInterrupt && raw == -(EINTR as int) {
        None
    } else {
        Some(spec_to_result(raw))
    }
}

/// Decides, from one raw return word, whether to re-issue the operation
/// (`None`) or to stop with the decoded outcome (`Some`).
pub fn retry_step(policy: RetryPolicy, raw: i64) -> (d: Option<Result<i64, Errno>>)
    ensures
        d == spec_retry_step(policy, raw),
{
    if matches!(policy, RetryPolicy::RetryOnInterrupt) && raw == -(EINTR as i64) {
        None
    } else {
        Some(to_result(raw))
    }
}

/// Invokes `op` under the given policy: with `RetryOnInterrupt` the
/// operation is re-issued while it reports "interrupted" (unbounded, since
/// that condition is transient); with `FailOnInterrupt` it runs exactly
/// once. Every outcome is the decoding of some raw word the operation
/// returned, so a success is non-negative, an error code is positive, and
/// under `RetryOnInterrupt` the "interrupted" error is never surfaced.
pub fn retry<F: RawOp>(policy: RetryPolicy, op: &mut F) -> (r: Result<i64, Errno>)
    ensures
        r matches Ok(v) ==> v >= 0,
        r matches Err(e) ==> e.wf(),
        policy is RetryOnInterrupt ==> r != Err::<i64, Errno>(Errno(EINTR)),
        exists|raw: i64| Some(r) == #[trigger] spec_retry_step(policy, raw),
{
    loop
        decreases op.fuel(),
    {
        let raw = op.call();
        match retry_step(policy, raw) {
            Some(r) => {
                proof {
                    if raw < 0 {
                        assert(0 < -(raw as int) <= 0x8000_0000_0000_0000);
                    }
                }
                return r;
            },
            None => {},
        }
    }
}

} // verus!
