//! The kernel's result convention: a raw signed return word encodes either
//! a success value (non-negative) or a negated error code (negative).

use vstd::prelude::*;

verus! {

/// The "interrupted" error code (`EINTR`).
pub const EINTR: u64 = 4;

/// The "resource busy" error code (`EBUSY`).
pub const EBUSY: u64 = 16;

/// The "invalid argument" error code (`EINVAL`).
pub const EINVAL: u64 = 22;

/// The "no space left on device" error code (`ENOSPC`).
pub const ENOSPC: u64 = 28;

/// The "timed out" error code (`ETIMEDOUT`).
pub const ETIMEDOUT: u64 = 110;

/// A kernel error code: a small positive integer from the kernel's fixed
/// error-code space.
///
/// The code is always strictly positive; `to_result` is the only place
/// that turns a raw kernel return word into an `Errno`.
#[derive(Clone, Copy, Debug, PartialEq, Eq, Structural, Hash)]
pub struct Errno(pub u64);

impl Errno {
    /// Whether this is a well-formed error code (strictly positive).
    pub open spec fn wf(self) -> bool {
        self.0 > 0
    }
}

/// What `to_result` returns: negative raw words carry `-code`, everything
/// else is a success value.
pub open spec fn spec_to_result(raw: i64) -> Result<i64, Errno> {
    if raw < 0 {
        Err(Errno((-(raw as int)) as u64))
    } else {
        Ok(raw)
    }
}

/// Decodes a raw kernel return word: a negative word `-e` becomes the
/// error `e`, a non-negative word is the success value. This single rule
/// is applied at every kernel call site.
pub fn to_result(raw: i64) -> (r: Result<i64, Errno>)
    ensures
        r == spec_to_result(raw),
        r matches Err(e) ==> e.wf(),
{
    if raw < 0 {
        let wide: i128 = -(raw as i128);
        let code: u64 = wide as u64;
        assert(code == -(raw as int));
        Err(Errno(code))
    } else {
        Ok(raw)
    }
}

/// Every negative raw word round-trips to exactly its negated error code,
/// and every non-negative raw word round-trips to itself, over the whole
/// representable range.
pub proof fn lemma_to_result_round_trip(raw: i64)
    ensures
        raw < 0 ==> spec_to_result(raw) == Err::<i64, Errno>(Errno((-(raw as int)) as u64)),
        raw < 0 ==> spec_to_result(raw)->Err_0.0 == -(raw as int),
        raw >= 0 ==> spec_to_result(raw) == Ok::<i64, Errno>(raw),
{
    if raw < 0 {
        assert(0 < -(raw as int) <= 0x8000_0000_0000_0000);
    }
}

} // verus!
