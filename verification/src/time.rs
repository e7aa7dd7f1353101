//! Time offsets as the kernel sees them: a seconds part and a nanoseconds
//! part, convertible to and from the kernel's `timespec` layout. Only what
//! the lock's timeout path needs is provided: construction from common
//! units, normalization, saturating addition and subtraction, and ordering.

use vstd::prelude::*;
use vstd::arithmetic::div_mod::{
    lemma_fundamental_div_mod, lemma_fundamental_div_mod_converse_div,
    lemma_fundamental_div_mod_converse_mod,
};
use crate::kty::timespec;

verus! {

/// Nanoseconds per second.
pub const NANOS_PER_SEC: i64 = 1_000_000_000;

/// Nanoseconds per millisecond.
pub const NANOS_PER_MILLI: i64 = 1_000_000;

/// Nanoseconds per microsecond.
pub const NANOS_PER_MICRO: i64 = 1_000;

/// Microseconds per second.
pub const MICROS_PER_SEC: i64 = 1_000_000;

/// Milliseconds per second.
pub const MILLIS_PER_SEC: i64 = 1_000;

/// Seconds per minute.
pub const SECS_PER_MIN: i64 = 60;

/// Seconds per hour.
pub const SECS_PER_HOUR: i64 = 3600;

/// Seconds per day.
pub const SECS_PER_DAY: i64 = 86400;

/// A time offset: a duration, a timeout, or an offset from some epoch.
#[derive(Clone, Copy, Debug, PartialEq, Eq, Structural)]
pub struct Time {
    /// The seconds part of the offset.
    pub seconds: i64,
    /// The nanoseconds part of the offset.
    pub nanoseconds: i64,
}

/// The value of a time offset as one exact count of nanoseconds.
pub open spec fn total_nanos(t: Time) -> int {
    t.seconds * (NANOS_PER_SEC as int) + t.nanoseconds
}

/// Addition on `i64` that clamps at the representable extremes.
pub open spec fn spec_sat_i64(v: int) -> i64 {
    if v > i64::MAX {
        i64::MAX
    } else if v < i64::MIN {
        i64::MIN
    } else {
        v as i64
    }
}

/// Truncated (round-toward-zero) division, as the machine performs it.
pub open spec fn spec_div_trunc(n: int, d: int) -> int
    recommends
        d > 0,
{
    if n >= 0 {
        n / d
    } else {
        -((-n) / d)
    }
}

/// The remainder matching `spec_div_trunc`: same sign as `n`.
pub open spec fn spec_rem_trunc(n: int, d: int) -> int
    recommends
        d > 0,
{
    if n >= 0 {
        n % d
    } else {
        -((-n) % d)
    }
}

/// The normalized form of a time offset: the nanoseconds part is brought
/// into `[0, NANOS_PER_SEC)` and the carry is folded into the seconds
/// part, clamping the seconds at the representable extremes.
pub open spec fn spec_normalize(t: Time) -> Time {
    Time {
        seconds: spec_sat_i64(
            t.seconds + t.nanoseconds as int / (NANOS_PER_SEC as int),
        ),
        nanoseconds: (t.nanoseconds as int % (NANOS_PER_SEC as int)) as i64,
    }
}

/// The sum of two time offsets: both are normalized, the seconds parts
/// are added with saturation, and the result is normalized again.
pub open spec fn spec_plus(a: Time, b: Time) -> Time {
    let one = spec_normalize(a);
    let two = spec_normalize(b);
    spec_normalize(
        Time {
            seconds: spec_sat_i64(one.seconds + two.seconds),
            nanoseconds: (one.nanoseconds + two.nanoseconds) as i64,
        },
    )
}

/// The difference of two time offsets, the same way.
pub open spec fn spec_minus(a: Time, b: Time) -> Time {
    let one = spec_normalize(a);
    let two = spec_normalize(b);
    spec_normalize(
        Time {
            seconds: spec_sat_i64(one.seconds - two.seconds),
            nanoseconds: (one.nanoseconds - two.nanoseconds) as i64,
        },
    )
}

/// Strict order on time offsets: lexicographic on the normalized parts.
pub open spec fn spec_lt(a: Time, b: Time) -> bool {
    let one = spec_normalize(a);
    let two = spec_normalize(b);
    one.seconds < two.seconds
        || (one.seconds == two.seconds && one.nanoseconds < two.nanoseconds)
}

/// Truncated division with remainder, `n = q * d + r` with `|r| < d` and
/// `r` carrying the sign of `n`.
fn div_rem(n: i64, d: i64) -> (qr: (i64, i64))
    requires
        1 < d <= NANOS_PER_SEC,
    ensures
        qr.0 == spec_div_trunc(n as int, d as int),
        qr.1 == spec_rem_trunc(n as int, d as int),
        n == qr.0 * d + qr.1,
        -d < qr.1 < d,
        n >= 0 ==> qr.1 >= 0,
        n < 0 ==> qr.1 <= 0,
{
    if n >= 0 {
        let q = (n as u64) / (d as u64);
        let r = (n as u64) % (d as u64);
        proof {
            lemma_fundamental_div_mod(n as int, d as int);
            assert(n as int / d as int <= n as int) by (nonlinear_arith)
                requires
                    n >= 0,
                    d > 1,
            ;
            assert(n as int == (n as int / d as int) * d + (n as int % d as int))
                by (nonlinear_arith)
                requires
                    d > 1,
                    n as int == d * (n as int / d as int) + (n as int % d as int),
            ;
        }
        (q as i64, r as i64)
    } else {
        let m: u64 = (-(n as i128)) as u64;
        assert(m as int == -(n as int));
        let mq = m / (d as u64);
        let mr = m % (d as u64);
        proof {
            lemma_fundamental_div_mod(m as int, d as int);
            assert(m as int / d as int <= m as int) by (nonlinear_arith)
                requires
                    d > 1,
            ;
        }
        let q: i64 = (-(mq as i128)) as i64;
        let r: i64 = (-(mr as i128)) as i64;
        proof {
            assert(n as int == (q as int) * d + (r as int)) by (nonlinear_arith)
                requires
                    m as int == d * (mq as int) + (mr as int),
                    n as int == -(m as int),
                    q as int == -(mq as int),
                    r as int == -(mr as int),
            ;
        }
        (q, r)
    }
}

/// Addition on `i64` that clamps at the representable extremes instead of
/// overflowing.
fn sat_add_i64(a: i64, b: i64) -> (r: i64)
    ensures
        r == spec_sat_i64(a + b),
{
    match a.checked_add(b) {
        Some(v) => v,
        None => {
            if b >= 0 {
                i64::MAX
            } else {
                i64::MIN
            }
        },
    }
}

/// Subtraction on `i64` that clamps at the representable extremes instead
/// of overflowing.
fn sat_sub_i64(a: i64, b: i64) -> (r: i64)
    ensures
        r == spec_sat_i64(a - b),
{
    match a.checked_sub(b) {
        Some(v) => v,
        None => {
            if b <= 0 {
                i64::MAX
            } else {
                i64::MIN
            }
        },
    }
}

impl Time {
    /// Normalizes the time: transforms `self` into an equivalent
    /// representation whose nanoseconds part lies in
    /// `[0, NANOS_PER_SEC)`, clamping the seconds at the extremes.
    pub fn normalize(self) -> (r: Time)
        ensures
            r == spec_normalize(self),
            0 <= r.nanoseconds < NANOS_PER_SEC,
    {
        let (mut sec, mut nano) = div_rem(self.nanoseconds, NANOS_PER_SEC);
        if nano < 0 {
            sec = sec - 1;
            nano = nano + NANOS_PER_SEC;
        }
        proof {
            let n = self.nanoseconds as int;
            let d = NANOS_PER_SEC as int;
            lemma_fundamental_div_mod_converse_div(n, d, sec as int, nano as int);
            lemma_fundamental_div_mod_converse_mod(n, d, sec as int, nano as int);
        }
        Time { seconds: sat_add_i64(self.seconds, sec), nanoseconds: nano }
    }

    /// Creates a `Time` that represents a number of nanoseconds. The parts
    /// come from truncated division, so both carry the sign of `n`.
    pub fn nanoseconds(n: i64) -> (r: Time)
        ensures
            r.seconds == spec_div_trunc(n as int, NANOS_PER_SEC as int),
            r.nanoseconds == spec_rem_trunc(n as int, NANOS_PER_SEC as int),
            total_nanos(r) == n,
    {
        let (s, rem) = div_rem(n, NANOS_PER_SEC);
        Time { seconds: s, nanoseconds: rem }
    }

    /// Creates a `Time` that represents a number of microseconds.
    pub fn microseconds(m: i64) -> (r: Time)
        ensures
            r.seconds == spec_div_trunc(m as int, MICROS_PER_SEC as int),
            r.nanoseconds == spec_rem_trunc(m as int, MICROS_PER_SEC as int)
                * NANOS_PER_MICRO,
            total_nanos(r) == m * (NANOS_PER_MICRO as int),
    {
        let (s, rem) = div_rem(m, MICROS_PER_SEC);
        proof {
            assert(s * 1_000_000_000 == (s * 1_000_000) * 1_000) by (nonlinear_arith);
        }
        Time { seconds: s, nanoseconds: rem * NANOS_PER_MICRO }
    }

    /// Creates a `Time` that represents a number of milliseconds.
    pub fn milliseconds(m: i64) -> (r: Time)
        ensures
            r.seconds == spec_div_trunc(m as int, MILLIS_PER_SEC as int),
            r.nanoseconds == spec_rem_trunc(m as int, MILLIS_PER_SEC as int)
                * NANOS_PER_MILLI,
            total_nanos(r) == m * (NANOS_PER_MILLI as int),
    {
        let (s, rem) = div_rem(m, MILLIS_PER_SEC);
        proof {
            assert(s * 1_000_000_000 == (s * 1_000) * 1_000_000) by (nonlinear_arith);
        }
        Time { seconds: s, nanoseconds: rem * NANOS_PER_MILLI }
    }

    /// Creates a `Time` that represents a number of seconds.
    pub fn seconds(s: i64) -> (r: Time)
        ensures
            r == (Time { seconds: s, nanoseconds: 0 }),
            total_nanos(r) == s * (NANOS_PER_SEC as int),
    {
        Time { seconds: s, nanoseconds: 0 }
    }

    /// Creates a `Time` that represents a number of minutes, wrapping on
    /// overflow as the machine multiplication does.
    pub fn minutes(m: i64) -> (r: Time)
        ensures
            r.nanoseconds == 0,
            r.seconds == vstd::wrapping::i64_specs::wrapping_mul(m, SECS_PER_MIN),
            i64::MIN <= m * SECS_PER_MIN <= i64::MAX ==> r.seconds == m * SECS_PER_MIN,
    {
        Time::seconds(m.wrapping_mul(SECS_PER_MIN))
    }

    /// Creates a `Time` that represents a number of hours, wrapping on
    /// overflow as the machine multiplication does.
    pub fn hours(h: i64) -> (r: Time)
        ensures
            r.nanoseconds == 0,
            r.seconds == vstd::wrapping::i64_specs::wrapping_mul(h, SECS_PER_HOUR),
            i64::MIN <= h * SECS_PER_HOUR <= i64::MAX ==> r.seconds == h * SECS_PER_HOUR,
    {
        Time::seconds(h.wrapping_mul(SECS_PER_HOUR))
    }

    /// Creates a `Time` that represents a number of days, wrapping on
    /// overflow as the machine multiplication does.
    pub fn days(d: i64) -> (r: Time)
        ensures
            r.nanoseconds == 0,
            r.seconds == vstd::wrapping::i64_specs::wrapping_mul(d, SECS_PER_DAY),
            i64::MIN <= d * SECS_PER_DAY <= i64::MAX ==> r.seconds == d * SECS_PER_DAY,
    {
        Time::seconds(d.wrapping_mul(SECS_PER_DAY))
    }

    /// The sum of two time offsets, saturating at the representable
    /// extremes.
    pub fn plus(self, other: Time) -> (r: Time)
        ensures
            r == spec_plus(self, other),
            0 <= r.nanoseconds < NANOS_PER_SEC,
    {
        let one = self.normalize();
        let two = other.normalize();
        let t = Time {
            seconds: sat_add_i64(one.seconds, two.seconds),
            nanoseconds: one.nanoseconds + two.nanoseconds,
        };
        t.normalize()
    }

    /// The difference of two time offsets, saturating at the representable
    /// extremes.
    pub fn minus(self, other: Time) -> (r: Time)
        ensures
            r == spec_minus(self, other),
            0 <= r.nanoseconds < NANOS_PER_SEC,
    {
        let one = self.normalize();
        let two = other.normalize();
        let t = Time {
            seconds: sat_sub_i64(one.seconds, two.seconds),
            nanoseconds: one.nanoseconds - two.nanoseconds,
        };
        t.normalize()
    }

    /// Whether `self` lies strictly before `other`.
    pub fn lt(&self, other: &Time) -> (r: bool)
        ensures
            r == spec_lt(*self, *other),
    {
        let one = self.normalize();
        let two = other.normalize();
        one.seconds < two.seconds
            || (one.seconds == two.seconds && one.nanoseconds < two.nanoseconds)
    }
}

/// A normalized time whose parts did not saturate carries exactly the
/// nanosecond count of its source.
pub proof fn lemma_normalize_preserves_total(t: Time)
    requires
        i64::MIN <= t.seconds + t.nanoseconds as int / (NANOS_PER_SEC as int) <= i64::MAX,
    ensures
        total_nanos(spec_normalize(t)) == total_nanos(t),
{
    let d = NANOS_PER_SEC as int;
    let carry = t.nanoseconds as int / d;
    let rem = t.nanoseconds as int % d;
    lemma_fundamental_div_mod(t.nanoseconds as int, d);
    assert((t.seconds + carry) * d == t.seconds * d + carry * d) by (nonlinear_arith);
}

/// Where no saturation point is reached, the sum of two time offsets
/// carries exactly the sum of their nanosecond counts: the deadline a
/// bounded acquire computes is the exact clock reading plus the exact
/// timeout.
pub proof fn lemma_plus_exact(a: Time, b: Time)
    requires
        i64::MIN <= a.seconds + a.nanoseconds as int / (NANOS_PER_SEC as int) <= i64::MAX,
        i64::MIN <= b.seconds + b.nanoseconds as int / (NANOS_PER_SEC as int) <= i64::MAX,
        i64::MIN <= spec_normalize(a).seconds + spec_normalize(b).seconds < i64::MAX,
    ensures
        total_nanos(spec_plus(a, b)) == total_nanos(a) + total_nanos(b),
{
    let one = spec_normalize(a);
    let two = spec_normalize(b);
    lemma_normalize_preserves_total(a);
    lemma_normalize_preserves_total(b);
    let d = NANOS_PER_SEC as int;
    let t = Time {
        seconds: spec_sat_i64(one.seconds + two.seconds),
        nanoseconds: (one.nanoseconds + two.nanoseconds) as i64,
    };
    assert(0 <= one.nanoseconds < d) by {
        lemma_fundamental_div_mod(a.nanoseconds as int, d);
    };
    assert(0 <= two.nanoseconds < d) by {
        lemma_fundamental_div_mod(b.nanoseconds as int, d);
    };
    assert(t.seconds == one.seconds + two.seconds);
    assert(0 <= t.nanoseconds as int / d <= 1) by {
        lemma_fundamental_div_mod(t.nanoseconds as int, d);
    };
    lemma_normalize_preserves_total(t);
    assert(total_nanos(t) == total_nanos(one) + total_nanos(two)) by {
        assert((one.seconds + two.seconds) * d == one.seconds * d + two.seconds * d)
            by (nonlinear_arith);
    };
}

/// Converts the kernel's `timespec` layout into a time offset, field for
/// field.
pub fn time_from_timespec(t: timespec) -> (r: Time)
    ensures
        r.seconds == t.tv_sec,
        r.nanoseconds == t.tv_nsec,
{
    Time { seconds: t.tv_sec, nanoseconds: t.tv_nsec }
}

/// Converts a time offset into the kernel's `timespec` layout, field for
/// field.
pub fn time_to_timespec(d: Time) -> (r: timespec)
    ensures
        r.tv_sec == d.seconds,
        r.tv_nsec == d.nanoseconds,
{
    timespec { tv_sec: d.seconds, tv_nsec: d.nanoseconds }
}

} // verus!
