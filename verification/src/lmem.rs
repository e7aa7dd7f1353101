//! Memory-level operations guarded by the plain-old-data capability:
//! zero-construction, reinterpretation between values and byte buffers,
//! bounded copying, and alignment trimming. Every reinterpretation goes
//! through these bounds-checked functions.

use vstd::prelude::*;
use crate::pod::Pod;

verus! {

/// A byte whose content carries no meaning of its own: the raw unit of
/// kernel ABI buffers.
#[allow(non_camel_case_types)]
#[derive(Clone, Copy, Debug, PartialEq, Eq, Structural)]
pub struct d8(pub u8);

impl d8 {
    /// Wraps one byte.
    pub fn new(byte: u8) -> (r: d8)
        ensures
            r.0 == byte,
    {
        d8(byte)
    }
}

/// Creates the all-zero value of a plain-old-data type: every bit pattern
/// of such a type is valid, the zero pattern included.
pub fn zeroed<T: Pod>() -> (r: T)
    ensures
        r.pod_bytes() == Seq::new(T::pod_size(), |i: int| 0u8),
{
    T::pod_zeroed()
}

/// The byte image of a plain-old-data value.
pub fn as_data<T: Pod>(val: &T) -> (r: Vec<u8>)
    ensures
        r@ == val.pod_bytes(),
{
    let mut out: Vec<u8> = Vec::new();
    val.pod_write(&mut out);
    out
}

/// Whether a buffer is large enough to hold a value of the type.
pub fn is_suitable_for<T: Pod>(buf: &[u8]) -> (b: bool)
    ensures
        b == (buf@.len() >= T::pod_size()),
{
    buf.len() >= T::pod_size_exec()
}

/// Reinterprets the front of a byte buffer as a plain-old-data value, if
/// the buffer is large enough; the value's byte image is exactly what was
/// read.
pub fn from_bytes<T: Pod>(buf: &[u8]) -> (r: Option<T>)
    ensures
        r is Some <==> buf@.len() >= T::pod_size(),
        r matches Some(v) ==> v.pod_bytes() == buf@.subrange(0, T::pod_size() as int),
{
    if is_suitable_for::<T>(buf) {
        Some(T::pod_read(buf, 0))
    } else {
        None
    }
}

/// Copies elements from one buffer to another; the number copied is the
/// minimum of the two lengths, the destination keeps its length, and its
/// tail is untouched.
pub fn copy<T: Copy>(dst: &mut Vec<T>, src: &[T]) -> (n: usize)
    ensures
        n == if old(dst)@.len() <= src@.len() {
            old(dst)@.len()
        } else {
            src@.len()
        },
        final(dst)@.len() == old(dst)@.len(),
        forall|i: int| 0 <= i < n ==> final(dst)@[i] == src@[i],
        forall|i: int| n <= i < old(dst)@.len() ==> final(dst)@[i] == old(dst)@[i],
{
    let n = if dst.len() <= src.len() {
        dst.len()
    } else {
        src.len()
    };
    let mut i: usize = 0;
    while i < n
        invariant
            i <= n,
            n <= dst@.len(),
            n <= src@.len(),
            dst@.len() == old(dst)@.len(),
            forall|j: int| 0 <= j < i ==> dst@[j] == src@[j],
            forall|j: int| i <= j < dst@.len() ==> dst@[j] == old(dst)@[j],
        decreases n - i,
    {
        let v = src[i];
        dst.set(i, v);
        i = i + 1;
    }
    n
}

/// Drops a value.
pub fn drop<T>(_val: T) {
}

/// Swaps two objects.
pub fn swap<T>(one: &mut T, two: &mut T)
    ensures
        *final(one) == *old(two),
        *final(two) == *old(one),
{
    core::mem::swap(one, two);
}

/// The distance from the address `addr` up to the next address aligned
/// to `align` (a power of two): zero when `addr` is aligned.
pub open spec fn spec_align_gap(addr: usize, align: usize) -> int {
    if addr & (((align - 1)) as usize) == 0 {
        0
    } else {
        align - (addr & (((align - 1)) as usize))
    }
}

/// The number of leading bytes to trim from a buffer that starts at
/// `addr` so that the first remaining byte is aligned to `align`: the
/// alignment gap if it fits in the buffer, else the whole length (an
/// empty rest).
pub fn align_for(addr: usize, align: usize, len: usize) -> (r: usize)
    requires
        align > 0,
        align & (((align - 1)) as usize) == 0,
    ensures
        r == if spec_align_gap(addr, align) <= len {
            spec_align_gap(addr, align)
        } else {
            len as int
        },
        ((addr + spec_align_gap(addr, align)) as usize) & (((align - 1)) as usize) == 0,
{
    let mask = align - 1;
    let r = addr & mask;
    proof {
        assert(addr & mask <= mask) by (bit_vector);
    }
    let diff = if r == 0 {
        0
    } else {
        align - r
    };
    proof {
        if r == 0 {
            assert(((addr + 0) as usize) & mask == 0usize) by (bit_vector)
                requires
                    addr & mask == 0usize,
            ;
        } else {
            assert(((addr + (align - ((addr & mask) as usize))) as usize) & mask == 0usize)
                by (bit_vector)
                requires
                    mask + 1 == align,
                    align & mask == 0usize,
                    addr & mask != 0usize,
            ;
        }
    }
    if diff <= len {
        diff
    } else {
        len
    }
}

} // verus!
