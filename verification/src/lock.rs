//! The futex-style lock protocol: a single word with exactly three legal
//! values — unlocked, locked, and locked-with-waiters — and the transitions
//! the protocol performs on it.
//!
//! This module holds the verified protocol itself: every compare-and-set
//! decision of the acquire paths, the two-case release, and the deadline
//! arithmetic of the bounded acquire. What cannot be expressed here is the
//! sharing: a process-shared lock keeps this word in an atomic shared
//! between threads and blocks on the kernel's futex wait primitive between
//! the steps below; an embedder drives these transitions against that
//! atomic one step at a time.

use vstd::prelude::*;
use crate::result::{Errno, EBUSY, ETIMEDOUT};
use crate::time::{Time, spec_lt, spec_minus};

verus! {

/// The word value of an unlocked lock.
pub const UNLOCKED: u32 = 0;

/// The word value of a lock held with no waiters recorded.
pub const LOCKED: u32 = 1;

/// The word value of a lock held with at least one possible waiter.
pub const WAITING: u32 = 2;

/// The status of a lock.
#[derive(Clone, Copy, Debug, PartialEq, Eq, Structural)]
pub enum LockStatus {
    /// The lock is unlocked.
    Unlocked,
    /// The lock is locked and nobody is waiting for it to be unlocked.
    Locked,
    /// The lock is locked and there may be threads waiting for it to be
    /// unlocked.
    Waiting,
}

/// A mutual-exclusion lock over one three-state word.
///
/// Acquisition succeeds only from the unlocked word, and only a release
/// produces the unlocked word again, so at most one guard is live per
/// lock at any time.
pub struct Lock {
    word: u32,
}

/// A proof of exclusive possession of one lock, produced only by a
/// successful acquire step and consumed exactly once by `Lock::unlock`.
///
/// A guard must be returned to the lock it was taken from; like
/// descriptor ownership, this is a usage contract of the caller.
pub struct LockGuard {
    _priv: (),
}

/// The transition a successful acquire performs, `UNLOCKED -> to`, where
/// `to` preserves the contended marker on the slow path. Returns the new
/// word and whether the acquire succeeded.
pub open spec fn spec_acquire(w: u32, to: u32) -> (u32, bool) {
    if w == UNLOCKED {
        (to, true)
    } else {
        (w, false)
    }
}

/// The decision of the slow path before blocking: from an observed word,
/// whether to block on the kernel wait primitive, and the word after the
/// `LOCKED -> WAITING` marking attempt.
pub open spec fn spec_mark_contended(w: u32, observed: u32) -> (u32, bool) {
    if observed == WAITING {
        (w, true)
    } else if w == LOCKED {
        (WAITING, true)
    } else if w == UNLOCKED {
        (w, false)
    } else {
        (w, true)
    }
}

/// The two-case release transition: the word becomes `UNLOCKED`, and the
/// wake primitive is invoked exactly when the previous word was `WAITING`.
pub open spec fn spec_unlock(w: u32) -> (u32, bool) {
    (UNLOCKED, w == WAITING)
}

impl Lock {
    /// The current value of the lock word.
    pub closed spec fn word(&self) -> u32 {
        self.word
    }

    /// A lock word is well formed when it holds one of the three legal
    /// values.
    pub open spec fn wf(&self) -> bool {
        self.word() <= 2
    }

    /// Creates a new, unlocked lock. A zero-initialized word is exactly
    /// the unlocked state.
    pub fn new() -> (l: Lock)
        ensures
            l.word() == UNLOCKED,
            l.wf(),
    {
        Lock { word: UNLOCKED }
    }

    /// One atomic compare-and-set on the lock word: if the word equals
    /// `expected` it becomes `new`; either way the previous word is
    /// returned.
    fn compare_exchange(&mut self, expected: u32, new: u32) -> (prev: u32)
        ensures
            prev == old(self).word(),
            old(self).word() == expected ==> final(self).word() == new,
            old(self).word() != expected ==> final(self).word() == old(self).word(),
    {
        let prev = self.word;
        if prev == expected {
            self.word = new;
        }
        prev
    }

    /// Returns the status of the lock.
    pub fn status(&self) -> (s: LockStatus)
        ensures
            self.word() == UNLOCKED ==> s == LockStatus::Unlocked,
            self.word() == LOCKED ==> s == LockStatus::Locked,
            self.word() > LOCKED ==> s == LockStatus::Waiting,
    {
        match self.word {
            0u32 => LockStatus::Unlocked,
            1u32 => LockStatus::Locked,
            _ => LockStatus::Waiting,
        }
    }

    /// Tries to lock the lock if it is currently unlocked; never blocks.
    ///
    /// Succeeds exactly on the unlocked word, which it sets to `LOCKED`;
    /// on a held lock it fails with "resource busy" and changes nothing.
    pub fn try_lock(&mut self) -> (r: Result<LockGuard, Errno>)
        ensures
            (final(self).word(), r is Ok) == spec_acquire(old(self).word(), LOCKED),
            old(self).word() == UNLOCKED ==> r is Ok && final(self).word() == LOCKED,
            old(self).word() != UNLOCKED ==> r == Err::<LockGuard, Errno>(Errno(EBUSY))
                && final(self).word() == old(self).word(),
    {
        if self.compare_exchange(UNLOCKED, LOCKED) == UNLOCKED {
            Ok(LockGuard { _priv: () })
        } else {
            Err(Errno(EBUSY))
        }
    }

    /// The fast path of a blocking acquire: one compare-and-set
    /// `UNLOCKED -> LOCKED`. Succeeds exactly on the unlocked word.
    pub fn acquire_fast(&mut self) -> (r: Option<LockGuard>)
        ensures
            (final(self).word(), r is Some) == spec_acquire(old(self).word(), LOCKED),
    {
        if self.compare_exchange(UNLOCKED, LOCKED) == UNLOCKED {
            Some(LockGuard { _priv: () })
        } else {
            None
        }
    }

    /// The slow-path decision before blocking: if the word observed by the
    /// previous step was not already `WAITING`, attempt to mark the lock
    /// contended with a compare-and-set `LOCKED -> WAITING`. Returns
    /// whether the caller should now block on the kernel wait primitive;
    /// it should not only when the lock turned out to be unlocked.
    pub fn mark_contended(&mut self, observed: u32) -> (wait: bool)
        ensures
            (final(self).word(), wait) == spec_mark_contended(old(self).word(), observed),
            final(self).word() == UNLOCKED <==> old(self).word() == UNLOCKED,
            old(self).wf() ==> final(self).wf(),
    {
        if observed == WAITING {
            true
        } else {
            self.compare_exchange(LOCKED, WAITING) != UNLOCKED
        }
    }

    /// The re-acquire attempt after a wake: a compare-and-set
    /// `UNLOCKED -> WAITING`. On success the lock is held, and the word
    /// keeps the contended marker so later waiters are still woken.
    /// Succeeds exactly on the unlocked word.
    pub fn acquire_contended(&mut self) -> (r: Option<LockGuard>)
        ensures
            (final(self).word(), r is Some) == spec_acquire(old(self).word(), WAITING),
    {
        if self.compare_exchange(UNLOCKED, WAITING) == UNLOCKED {
            Some(LockGuard { _priv: () })
        } else {
            None
        }
    }

    /// Releases the lock, consuming the guard; performed exactly once at
    /// every exit path of a guard's scope.
    ///
    /// The word is decremented and the *previous* value inspected: if it
    /// was `LOCKED`, the decrement alone already produced `UNLOCKED` and
    /// nothing further happens — in particular no wake, since nothing can
    /// be waiting on a lock never marked `WAITING`. If it was `WAITING`,
    /// the stale word is overwritten with `UNLOCKED` and the caller must
    /// wake exactly one blocked waiter; `woke` reports that obligation.
    pub fn unlock(&mut self, guard: LockGuard) -> (woke: bool)
        requires
            old(self).wf(),
            old(self).word() != UNLOCKED,
        ensures
            (final(self).word(), woke) == spec_unlock(old(self).word()),
            final(self).word() == UNLOCKED,
            woke <==> old(self).word() == WAITING,
    {
        let _ = guard;
        let prev = self.word;
        self.word = prev - 1;
        if prev != LOCKED {
            self.word = UNLOCKED;
            true
        } else {
            false
        }
    }
}

/// How long a bounded acquire may still block: the deadline minus the
/// current clock reading, or `None` when the deadline has arrived, in
/// which case the acquire reports "timed out".
pub fn remaining_time(deadline: Time, now: Time) -> (r: Option<Time>)
    ensures
        r is Some <==> spec_lt(now, deadline),
        r matches Some(t) ==> t == spec_minus(deadline, now),
{
    if now.lt(&deadline) {
        Some(deadline.minus(now))
    } else {
        None
    }
}

/// The error a bounded acquire reports when its deadline arrives before
/// the lock could be taken.
pub fn timeout_error() -> (e: Errno)
    ensures
        e == Errno(ETIMEDOUT),
        e.wf(),
{
    Errno(ETIMEDOUT)
}

/// On a fresh lock, `try_lock` succeeds exactly once: the first attempt
/// acquires and sets the word to `LOCKED`, and from then on — while no
/// release happens — every further attempt fails and leaves the word
/// unchanged, however many are made.
pub proof fn lemma_try_lock_succeeds_once(w0: u32)
    requires
        w0 == UNLOCKED,
    ensures
        spec_acquire(w0, LOCKED).1,
        spec_acquire(w0, LOCKED).0 == LOCKED,
        forall|w: u32| w != UNLOCKED ==> !(#[trigger] spec_acquire(w, LOCKED)).1
            && spec_acquire(w, LOCKED).0 == w,
{
}

/// Mutual exclusion over the protocol: every acquire step succeeds only
/// from the unlocked word, and no step other than a release ever produces
/// the unlocked word from a held one. So while one guard is live, no
/// second acquire can complete until the first is released — release
/// happens strictly before the next acquisition.
pub proof fn lemma_mutual_exclusion(w: u32, to: u32, observed: u32)
    ensures
        spec_acquire(w, to).1 ==> w == UNLOCKED,
        w != UNLOCKED && to != UNLOCKED ==> spec_acquire(w, to).0 != UNLOCKED,
        w != UNLOCKED ==> spec_mark_contended(w, observed).0 != UNLOCKED,
{
}

/// One transition of the lock protocol, for stating laws over whole runs.
pub enum LockStep {
    /// A non-blocking acquire attempt, `UNLOCKED -> LOCKED`.
    TryLock,
    /// The fast path of a blocking acquire, `UNLOCKED -> LOCKED`.
    AcquireFast,
    /// The contention marking before blocking, with the word the previous
    /// step observed.
    MarkContended(u32),
    /// The re-acquire attempt after a wake, `UNLOCKED -> WAITING`.
    AcquireContended,
    /// The release.
    Unlock,
}

/// The lock word after one protocol step.
pub open spec fn apply_step(w: u32, s: LockStep) -> u32 {
    match s {
        LockStep::TryLock => spec_acquire(w, LOCKED).0,
        LockStep::AcquireFast => spec_acquire(w, LOCKED).0,
        LockStep::MarkContended(observed) => spec_mark_contended(w, observed).0,
        LockStep::AcquireContended => spec_acquire(w, WAITING).0,
        LockStep::Unlock => spec_unlock(w).0,
    }
}

/// Whether a protocol step acquires the lock from word `w`.
pub open spec fn step_acquires(w: u32, s: LockStep) -> bool {
    match s {
        LockStep::TryLock => spec_acquire(w, LOCKED).1,
        LockStep::AcquireFast => spec_acquire(w, LOCKED).1,
        LockStep::MarkContended(_) => false,
        LockStep::AcquireContended => spec_acquire(w, WAITING).1,
        LockStep::Unlock => false,
    }
}

/// The lock word after a whole run of protocol steps.
pub open spec fn run_steps(w: u32, steps: Seq<LockStep>) -> u32
    decreases steps.len(),
{
    if steps.len() == 0 {
        w
    } else {
        run_steps(apply_step(w, steps[0]), steps.drop_first())
    }
}

/// Mutual exclusion over whole runs: from a held word, any number of
/// protocol steps that includes no release leaves the lock held, and no
/// step of the run acquires it. A competing acquirer therefore completes
/// only strictly after the holder's release.
pub proof fn lemma_exclusion_until_release(w: u32, steps: Seq<LockStep>)
    requires
        w != UNLOCKED,
        forall|j: int| 0 <= j < steps.len() ==> steps[j] !is Unlock,
    ensures
        run_steps(w, steps) != UNLOCKED,
        steps.len() > 0 ==> !step_acquires(w, steps[0]),
    decreases steps.len(),
{
    if steps.len() > 0 {
        let w1 = apply_step(w, steps[0]);
        assert(w1 != UNLOCKED);
        lemma_exclusion_until_release(w1, steps.drop_first());
    }
}

/// The two-case release, as the protocol's crux: an uncontended release
/// (previous word `LOCKED`) never asks for a wake, a contended release
/// (previous word `WAITING`) always does, and both leave the word
/// unlocked.
pub proof fn lemma_release_two_cases(w: u32)
    requires
        w == LOCKED || w == WAITING,
    ensures
        spec_unlock(w).0 == UNLOCKED,
        w == LOCKED ==> !spec_unlock(w).1,
        w == WAITING ==> spec_unlock(w).1,
{
}

} // verus!
