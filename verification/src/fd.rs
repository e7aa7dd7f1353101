//! Descriptor ownership: wrappers around raw descriptor integers, the
//! distinction between owned and borrowed descriptors, and the exact
//! decoding and flag arithmetic of the descriptor-flag and duplication
//! operations. The kernel calls themselves (`fcntl`, `dup3`) happen at the
//! embedder's edge; everything around them — which command is issued, how
//! a returned word is decoded, which flag bits change — is here, verified.

use vstd::prelude::*;
use crate::kty::{c_int, FD_CLOEXEC};
use crate::pod::{Pod, u32_le, lemma_u32_le_round_trip, lemma_le_zero, lemma_i32_cast};
use crate::result::Errno;

verus! {

/// A read/write wrapper for raw file descriptors; it never owns the
/// descriptor.
#[derive(Clone, Copy, Debug, PartialEq, Eq, Structural)]
pub struct FdIo(pub c_int);

/// The standard input descriptor.
pub fn stdin() -> (r: FdIo)
    ensures
        r.0 == 0,
{
    FdIo(0)
}

/// The standard output descriptor.
pub fn stdout() -> (r: FdIo)
    ensures
        r.0 == 1,
{
    FdIo(1)
}

/// The standard error descriptor.
pub fn stderr() -> (r: FdIo)
    ensures
        r.0 == 2,
{
    FdIo(2)
}

/// Objects that wrap a raw file descriptor.
///
/// A wrapper constructed as owned closes its descriptor exactly once when
/// it leaves scope; a borrowed wrapper never closes it. At most one live
/// wrapper may own a given descriptor integer at a time — a usage
/// contract, not enforced here.
pub trait FdContainer: Sized {
    /// The wrapped raw descriptor.
    spec fn raw_fd(&self) -> c_int;

    /// Whether this wrapper closes the descriptor when it leaves scope.
    spec fn owned(&self) -> bool;

    /// Returns whether the object owns the file descriptor.
    fn is_owned(&self) -> (r: bool)
        ensures
            r == self.owned(),
    ;

    /// Returns the contained file descriptor.
    fn borrow(&self) -> (fd: c_int)
        ensures
            fd == self.raw_fd(),
    ;

    /// Creates a new owned object from a file descriptor. Not all objects
    /// support owned file descriptors; check with `is_owned` if this
    /// matters.
    fn from_owned(fd: c_int) -> (r: Self)
        ensures
            r.raw_fd() == fd,
    ;

    /// Creates a new borrowed object from a file descriptor; the wrapper
    /// will never close it.
    fn from_borrowed(fd: c_int) -> (r: Self)
        ensures
            r.raw_fd() == fd,
            !r.owned(),
    ;

    /// Borrows the file descriptor as an `FdIo`.
    fn as_fdio(&self) -> (r: FdIo)
        ensures
            r.0 == self.raw_fd(),
    {
        FdIo(self.borrow())
    }
}

impl FdContainer for FdIo {
    open spec fn raw_fd(&self) -> c_int {
        self.0
    }

    open spec fn owned(&self) -> bool {
        false
    }

    fn is_owned(&self) -> bool {
        false
    }

    fn borrow(&self) -> c_int {
        self.0
    }

    fn from_owned(fd: c_int) -> FdIo {
        FdIo(fd)
    }

    fn from_borrowed(fd: c_int) -> FdIo {
        FdIo(fd)
    }
}

impl FdContainer for c_int {
    open spec fn raw_fd(&self) -> c_int {
        *self
    }

    open spec fn owned(&self) -> bool {
        false
    }

    fn is_owned(&self) -> bool {
        false
    }

    fn borrow(&self) -> c_int {
        *self
    }

    fn from_owned(fd: c_int) -> c_int {
        fd
    }

    fn from_borrowed(fd: c_int) -> c_int {
        fd
    }
}

/// The open-file status flags of a file description.
#[derive(Clone, Copy, Debug, PartialEq, Eq, Structural)]
pub struct DescriptionFlags(pub c_int);

/// The error carried by a negative kernel return word `ret`, namely
/// `-ret`.
pub open spec fn errno_of_neg(ret: c_int) -> Errno {
    Errno((-(ret as int)) as u64)
}

/// Turns a negative kernel return word into its error code.
pub fn errno_from_neg(ret: c_int) -> (e: Errno)
    requires
        ret < 0,
    ensures
        e == errno_of_neg(ret),
        e.wf(),
{
    let wide: i64 = -(ret as i64);
    Errno(wide as u64)
}

/// Decodes the raw result of the get-descriptor-flags call into the state
/// of the close-on-exec flag: an error for a negative word, otherwise
/// whether the flag bit is set.
pub fn is_close_on_exec(ret: c_int) -> (r: Result<bool, Errno>)
    ensures
        ret < 0 ==> r == Err::<bool, Errno>(errno_of_neg(ret)),
        ret >= 0 ==> r == Ok::<bool, Errno>(ret & FD_CLOEXEC != 0),
{
    if ret < 0 {
        Err(errno_from_neg(ret))
    } else {
        Ok(ret & FD_CLOEXEC != 0)
    }
}

/// The new descriptor-flag word that enables or disables close-on-exec
/// while keeping every other flag bit: what the set-descriptor-flags call
/// is handed after the get-descriptor-flags call returned `flags`.
pub fn set_close_on_exec_flags(flags: c_int, val: bool) -> (r: c_int)
    ensures
        r == (flags & !FD_CLOEXEC) | (if val {
            FD_CLOEXEC
        } else {
            0
        }),
{
    if val {
        (flags & !FD_CLOEXEC) | FD_CLOEXEC
    } else {
        proof {
            assert(forall|x: c_int| #[trigger] (x | 0) == x) by (bit_vector);
        }
        flags & !FD_CLOEXEC
    }
}

/// Decodes the raw result of the get-file-status call: an error for a
/// negative word, otherwise the description flags themselves.
pub fn description_flags(ret: c_int) -> (r: Result<DescriptionFlags, Errno>)
    ensures
        ret < 0 ==> r == Err::<DescriptionFlags, Errno>(errno_of_neg(ret)),
        ret >= 0 ==> r == Ok::<DescriptionFlags, Errno>(DescriptionFlags(ret)),
{
    if ret < 0 {
        Err(errno_from_neg(ret))
    } else {
        Ok(DescriptionFlags(ret))
    }
}

/// Decodes the raw result of a duplication call (`F_DUPFD_CLOEXEC` or
/// `dup3` with close-on-exec set): an error for a negative word, otherwise
/// a new wrapper that owns the duplicate descriptor.
pub fn duplicate_result<T: FdContainer>(ret: c_int) -> (r: Result<T, Errno>)
    ensures
        ret < 0 ==> (r matches Err(e) && e == errno_of_neg(ret)),
        ret >= 0 ==> (r matches Ok(t) && t.raw_fd() == ret),
{
    if ret < 0 {
        Err(errno_from_neg(ret))
    } else {
        Ok(T::from_owned(ret))
    }
}

impl Pod for FdIo {
    open spec fn pod_bytes(self) -> Seq<u8> {
        u32_le(self.0 as u32)
    }

    open spec fn pod_size() -> nat {
        4
    }

    proof fn lemma_pod_size(self) {
    }

    proof fn lemma_pod_injective(a: Self, b: Self) {
        lemma_u32_le_round_trip(a.0 as u32, u32_le(b.0 as u32));
        lemma_u32_le_round_trip(b.0 as u32, u32_le(a.0 as u32));
        lemma_i32_cast(0, a.0, b.0);
    }

    fn pod_size_exec() -> usize {
        4
    }

    fn pod_zeroed() -> Self {
        proof {
            lemma_le_zero();
            lemma_i32_cast(0, 0, 0);
            assert(0i32 as u32 == 0u32) by (bit_vector);
        }
        FdIo(0)
    }

    fn pod_write(&self, out: &mut Vec<u8>) {
        self.0.pod_write(out);
    }

    fn pod_read(buf: &[u8], at: usize) -> Self {
        let v = i32::pod_read(buf, at);
        FdIo(v)
    }
}

} // verus!
