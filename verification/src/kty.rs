#![allow(nonstandard_style)]
//! Kernel ABI data: the C-compatible integer type names, the numeric
//! constants and struct layouts that the kernel call boundary is defined
//! over, and the ioctl request-number encoding. These are a fixed external
//! contract; the core respects them byte for byte.
//!
//! Pointer-valued ABI slots are carried as `usize` machine words: to this
//! layer an address is just another word handed to or from the kernel.

use vstd::prelude::*;
use crate::pod::{Pod, lemma_concat_split};

verus! {

pub type c_schar = i8;

pub type c_uchar = u8;

pub type c_short = i16;

pub type c_ushort = u16;

pub type c_int = i32;

pub type c_uint = u32;

pub type c_long = i64;

pub type c_ulong = u64;

pub type c_longlong = i64;

pub type c_ulonglong = u64;

pub type __s8 = i8;

pub type __u8 = u8;

pub type __s16 = i16;

pub type __u16 = u16;

pub type __s32 = i32;

pub type __u32 = u32;

pub type __s64 = i64;

pub type __u64 = u64;

pub type __kernel_long_t = c_long;

pub type __kernel_ulong_t = c_ulong;

pub type __kernel_ino_t = __kernel_ulong_t;

pub type __kernel_mode_t = c_uint;

pub type __kernel_pid_t = c_int;

pub type __kernel_uid32_t = c_uint;

pub type __kernel_gid32_t = c_uint;

pub type __kernel_key_t = c_int;

pub type __kernel_time_t = __kernel_long_t;

pub type __kernel_clock_t = __kernel_long_t;

pub type __kernel_timer_t = c_int;

pub type __kernel_clockid_t = c_int;

pub type __ARCH_SI_UID_T = __kernel_uid32_t;

pub type __ARCH_SI_BAND_T = c_long;

pub type __ARCH_SI_CLOCK_T = __kernel_clock_t;

pub type time_t = __kernel_time_t;

pub type k_int = c_int;

pub type k_uint = c_uint;

pub type k_long = c_long;

pub type k_ulong = c_ulong;

pub type loff_t = c_longlong;

pub type tcflag_t = c_uint;

pub type cc_t = c_uchar;

pub type speed_t = c_uint;

pub type SigsetVal = c_ulong;

pub type old_sigset_t = c_ulong;

/// A kernel union of an integer and a pointer; to this layer it is one
/// machine word.
pub type sigval_t = usize;

/// The kernel's timestamp layout: seconds and nanoseconds.
#[derive(Clone, Copy, Debug, PartialEq, Eq, Structural)]
pub struct timespec {
    pub tv_sec: time_t,
    pub tv_nsec: k_long,
}

/// The kernel's timer-setting layout: an interval and an initial value.
#[derive(Clone, Copy, Debug, PartialEq, Eq, Structural)]
pub struct itimerspec {
    pub it_interval: timespec,
    pub it_value: timespec,
}

pub const FD_CLOEXEC: c_int = 1;

pub const O_CLOEXEC: c_int = 0o2000000;

pub const O_NONBLOCK: c_int = 0o0004000;

pub const F_DUPFD: c_uint = 0;

pub const F_GETFD: c_uint = 1;

pub const F_SETFD: c_uint = 2;

pub const F_GETFL: c_uint = 3;

pub const F_SETFL: c_uint = 4;

pub const F_LINUX_SPECIFIC_BASE: c_uint = 1024;

/// `F_DUPFD_CLOEXEC`: duplicate a descriptor with close-on-exec already
/// set, atomically in one kernel call.
pub const F_DUPFD_CLOEXEC: c_uint = 1030;

pub const FUTEX_WAIT: c_int = 0;

pub const FUTEX_WAKE: c_int = 1;

pub const CLOCK_MONOTONIC_RAW: __kernel_clockid_t = 4;

pub const TFD_TIMER_ABSTIME: c_int = 1;

pub const NCCS: usize = 19;

pub const NCC: usize = 8;

pub const _NSIG_WORDS: usize = 1;

pub const _IOC_NRBITS: c_uint = 8;

pub const _IOC_TYPEBITS: c_uint = 8;

pub const _IOC_SIZEBITS: c_uint = 14;

pub const _IOC_DIRBITS: c_uint = 2;

pub const _IOC_NRMASK: c_uint = 0xff;

pub const _IOC_TYPEMASK: c_uint = 0xff;

pub const _IOC_SIZEMASK: c_uint = 0x3fff;

pub const _IOC_DIRMASK: c_uint = 0x3;

pub const _IOC_NRSHIFT: c_uint = 0;

pub const _IOC_TYPESHIFT: c_uint = 8;

pub const _IOC_SIZESHIFT: c_uint = 16;

pub const _IOC_DIRSHIFT: c_uint = 30;

pub const _IOC_NONE: c_uint = 0;

pub const _IOC_WRITE: c_uint = 1;

pub const _IOC_READ: c_uint = 2;

/// The ioctl request number assembled from its four fields.
pub open spec fn spec_ioc(dir: c_uint, ty: c_uint, nr: c_uint, size: c_uint) -> c_uint {
    (dir << _IOC_DIRSHIFT) | (ty << _IOC_TYPESHIFT) | (nr << _IOC_NRSHIFT) | (size
        << _IOC_SIZESHIFT)
}

/// Assembles an ioctl request number from a direction, a type letter, a
/// command number and an argument size.
pub fn _IOC(dir: c_uint, ty: c_uint, nr: c_uint, size: c_uint) -> (r: c_uint)
    ensures
        r == spec_ioc(dir, ty, nr, size),
{
    (dir << _IOC_DIRSHIFT) | (ty << _IOC_TYPESHIFT) | (nr << _IOC_NRSHIFT) | (size
        << _IOC_SIZESHIFT)
}

/// An ioctl request number with no argument.
pub fn _IO(ty: c_uint, nr: c_uint) -> (r: c_uint)
    ensures
        r == spec_ioc(_IOC_NONE, ty, nr, 0),
{
    _IOC(_IOC_NONE, ty, nr, 0)
}

/// Extracts the direction field of an ioctl request number.
pub fn _IOC_DIR(nr: c_uint) -> (r: c_uint)
    ensures
        r == (nr >> _IOC_DIRSHIFT) & _IOC_DIRMASK,
{
    (nr >> _IOC_DIRSHIFT) & _IOC_DIRMASK
}

/// Extracts the type field of an ioctl request number.
pub fn _IOC_TYPE(nr: c_uint) -> (r: c_uint)
    ensures
        r == (nr >> _IOC_TYPESHIFT) & _IOC_TYPEMASK,
{
    (nr >> _IOC_TYPESHIFT) & _IOC_TYPEMASK
}

/// Extracts the command-number field of an ioctl request number.
pub fn _IOC_NR(nr: c_uint) -> (r: c_uint)
    ensures
        r == (nr >> _IOC_NRSHIFT) & _IOC_NRMASK,
{
    (nr >> _IOC_NRSHIFT) & _IOC_NRMASK
}

/// Extracts the argument-size field of an ioctl request number.
pub fn _IOC_SIZE(nr: c_uint) -> (r: c_uint)
    ensures
        r == (nr >> _IOC_SIZESHIFT) & _IOC_SIZEMASK,
{
    (nr >> _IOC_SIZESHIFT) & _IOC_SIZEMASK
}

/// The event-interest record of the epoll interface.
#[derive(Clone, Copy, Debug, PartialEq, Eq, Structural)]
pub struct epoll_event {
    pub events: __u32,
    pub data: __u64,
}

/// The owner record used by `F_GETOWN_EX` / `F_SETOWN_EX`.
#[derive(Clone, Copy, Debug, PartialEq, Eq, Structural)]
pub struct f_owner_ex {
    pub type_: c_int,
    pub pid: __kernel_pid_t,
}

/// The permission record shared by the System V IPC interfaces.
#[derive(Clone, Copy, Debug, PartialEq, Eq, Structural)]
pub struct ipc64_perm {
    pub key: __kernel_key_t,
    pub uid: __kernel_uid32_t,
    pub gid: __kernel_gid32_t,
    pub cuid: __kernel_uid32_t,
    pub cgid: __kernel_gid32_t,
    pub mode: __kernel_mode_t,
    pub seq: c_ushort,
    pub __pad2: c_ushort,
    pub __unused1: __kernel_ulong_t,
    pub __unused2: __kernel_ulong_t,
}

/// One entry of a `poll` descriptor set.
#[derive(Clone, Copy, Debug, PartialEq, Eq, Structural)]
pub struct pollfd {
    pub fd: c_int,
    pub events: c_short,
    pub revents: c_short,
}

/// The filesystem identifier embedded in `statfs`.
#[derive(Clone, Copy, Debug, PartialEq, Eq)]
pub struct __kernel_fsid_t {
    pub val: [c_int; 2],
}

/// The shared-memory limits record.
#[derive(Clone, Copy, Debug, PartialEq, Eq, Structural)]
pub struct shminfo64 {
    pub shmmax: __kernel_ulong_t,
    pub shmmin: __kernel_ulong_t,
    pub shmmni: __kernel_ulong_t,
    pub shmseg: __kernel_ulong_t,
    pub shmall: __kernel_ulong_t,
    pub __unused1: __kernel_ulong_t,
    pub __unused2: __kernel_ulong_t,
    pub __unused3: __kernel_ulong_t,
    pub __unused4: __kernel_ulong_t,
}

/// The signal-info payload for signals sent by `kill`.
#[derive(Clone, Copy, Debug, PartialEq, Eq, Structural)]
pub struct siginfo_kill {
    pub _pid: __kernel_pid_t,
    pub _uid: __ARCH_SI_UID_T,
}

/// The signal-info payload for timer expirations.
#[derive(Clone, Copy, Debug, PartialEq, Eq, Structural)]
pub struct siginfo_timer {
    pub _tid: __kernel_timer_t,
    pub _overrun: c_int,
    pub _sigval: sigval_t,
    pub _sys_private: c_int,
}

/// The signal-info payload for realtime signals.
#[derive(Clone, Copy, Debug, PartialEq, Eq, Structural)]
pub struct siginfo_rt {
    pub _pid: __kernel_pid_t,
    pub _uid: __ARCH_SI_UID_T,
    pub _sigval: sigval_t,
}

/// The signal-info payload for child-state changes.
#[derive(Clone, Copy, Debug, PartialEq, Eq, Structural)]
pub struct siginfo_sigchld {
    pub _pid: __kernel_pid_t,
    pub _uid: __ARCH_SI_UID_T,
    pub _status: c_int,
    pub _utime: __ARCH_SI_CLOCK_T,
    pub _stime: __ARCH_SI_CLOCK_T,
}

/// The address-range payload of bound-violation faults; the bounds are
/// address words.
#[derive(Clone, Copy, Debug, PartialEq, Eq, Structural)]
pub struct siginfo_addr_bnd {
    pub _lower: usize,
    pub _upper: usize,
}

/// The signal-info payload for poll events.
#[derive(Clone, Copy, Debug, PartialEq, Eq, Structural)]
pub struct siginfo_sigpoll {
    pub _band: __ARCH_SI_BAND_T,
    pub _fd: c_int,
}

/// The signal-info payload for seccomp system-call traps; the call site is
/// an address word.
#[derive(Clone, Copy, Debug, PartialEq, Eq, Structural)]
pub struct siginfo_sigsys {
    pub _call_addr: usize,
    pub _syscall: c_int,
    pub _arch: c_uint,
}

/// The signal-info payload for memory faults: the faulting address word.
#[derive(Clone, Copy, Debug, PartialEq, Eq, Structural)]
pub struct siginfo_sigfault {
    pub _addr: usize,
}

/// A set of signal numbers, one bit each.
#[derive(Clone, Copy, Debug, PartialEq, Eq)]
pub struct sigset_t {
    pub sig: [c_ulong; _NSIG_WORDS],
}

/// An alternate signal-stack description; the stack base is an address
/// word.
#[derive(Clone, Copy, Debug, PartialEq, Eq, Structural)]
pub struct sigaltstack {
    pub ss_sp: usize,
    pub ss_flags: c_int,
    pub ss_size: usize,
}

pub type stack_t = sigaltstack;

/// A signal-handler registration as the kernel expects it; the handler and
/// restorer are address words.
#[derive(Clone, Copy, Debug, PartialEq, Eq)]
pub struct sigaction {
    pub sa_handler: usize,
    pub sa_flags: c_ulong,
    pub sa_restorer: usize,
    pub sa_mask: sigset_t,
}

/// The filesystem-statistics record.
#[derive(Clone, Copy, Debug, PartialEq, Eq)]
pub struct statfs {
    pub f_type: __kernel_long_t,
    pub f_bsize: __kernel_long_t,
    pub f_blocks: __kernel_long_t,
    pub f_bfree: __kernel_long_t,
    pub f_bavail: __kernel_long_t,
    pub f_files: __kernel_long_t,
    pub f_ffree: __kernel_long_t,
    pub f_fsid: __kernel_fsid_t,
    pub f_namelen: __kernel_long_t,
    pub f_frsize: __kernel_long_t,
    pub f_flags: __kernel_long_t,
    pub f_spare: [__kernel_long_t; 4],
}

/// The file-status record.
#[derive(Clone, Copy, Debug, PartialEq, Eq, Structural)]
pub struct stat {
    pub st_dev: c_ulong,
    pub st_ino: c_ulong,
    pub st_mode: c_uint,
    pub st_nlink: c_uint,
    pub st_uid: c_uint,
    pub st_gid: c_uint,
    pub st_rdev: c_ulong,
    pub __pad1: c_ulong,
    pub st_size: c_long,
    pub st_blksize: c_int,
    pub __pad2: c_int,
    pub st_blocks: c_long,
    pub st_atime: c_long,
    pub st_atime_nsec: c_ulong,
    pub st_mtime: c_long,
    pub st_mtime_nsec: c_ulong,
    pub st_ctime: c_long,
    pub st_ctime_nsec: c_ulong,
    pub __unused4: c_uint,
    pub __unused5: c_uint,
}

/// The file-status record of the 64-bit-offset interface.
#[derive(Clone, Copy, Debug, PartialEq, Eq, Structural)]
pub struct stat64 {
    pub st_dev: c_ulonglong,
    pub st_ino: c_ulonglong,
    pub st_mode: c_uint,
    pub st_nlink: c_uint,
    pub st_uid: c_uint,
    pub st_gid: c_uint,
    pub st_rdev: c_ulonglong,
    pub __pad1: c_ulonglong,
    pub st_size: c_longlong,
    pub st_blksize: c_int,
    pub __pad2: c_int,
    pub st_blocks: c_longlong,
    pub st_atime: c_int,
    pub st_atime_nsec: c_uint,
    pub st_mtime: c_int,
    pub st_mtime_nsec: c_uint,
    pub st_ctime: c_int,
    pub st_ctime_nsec: c_uint,
    pub __unused4: c_uint,
    pub __unused5: c_uint,
}

/// The terminal-settings record.
#[derive(Clone, Copy, Debug, PartialEq, Eq)]
pub struct termios {
    pub c_iflag: tcflag_t,
    pub c_oflag: tcflag_t,
    pub c_cflag: tcflag_t,
    pub c_lflag: tcflag_t,
    pub c_line: cc_t,
    pub c_cc: [cc_t; NCCS],
}

/// The terminal-settings record with explicit input and output speeds.
#[derive(Clone, Copy, Debug, PartialEq, Eq)]
pub struct termios2 {
    pub c_iflag: tcflag_t,
    pub c_oflag: tcflag_t,
    pub c_cflag: tcflag_t,
    pub c_lflag: tcflag_t,
    pub c_line: cc_t,
    pub c_cc: [cc_t; NCCS],
    pub c_ispeed: speed_t,
    pub c_ospeed: speed_t,
}

/// The kernel-internal terminal-settings record.
#[derive(Clone, Copy, Debug, PartialEq, Eq)]
pub struct ktermios {
    pub c_iflag: tcflag_t,
    pub c_oflag: tcflag_t,
    pub c_cflag: tcflag_t,
    pub c_lflag: tcflag_t,
    pub c_line: cc_t,
    pub c_cc: [cc_t; NCCS],
    pub c_ispeed: speed_t,
    pub c_ospeed: speed_t,
}

/// The terminal window-size record.
#[derive(Clone, Copy, Debug, PartialEq, Eq, Structural)]
pub struct winsize {
    pub ws_row: c_ushort,
    pub ws_col: c_ushort,
    pub ws_xpixel: c_ushort,
    pub ws_ypixel: c_ushort,
}

/// The legacy terminal-settings record.
#[derive(Clone, Copy, Debug, PartialEq, Eq)]
pub struct termio {
    pub c_iflag: c_ushort,
    pub c_oflag: c_ushort,
    pub c_cflag: c_ushort,
    pub c_lflag: c_ushort,
    pub c_line: c_uchar,
    pub c_cc: [c_uchar; NCC],
}

impl Pod for timespec {
    open spec fn pod_bytes(self) -> Seq<u8> {
        self.tv_sec.pod_bytes() + self.tv_nsec.pod_bytes()
    }

    open spec fn pod_size() -> nat {
        16
    }

    proof fn lemma_pod_size(self) {
        self.tv_sec.lemma_pod_size();
        self.tv_nsec.lemma_pod_size();
    }

    proof fn lemma_pod_injective(a: Self, b: Self) {
        a.tv_sec.lemma_pod_size();
        b.tv_sec.lemma_pod_size();
        lemma_concat_split(
            a.tv_sec.pod_bytes(),
            a.tv_nsec.pod_bytes(),
            b.tv_sec.pod_bytes(),
            b.tv_nsec.pod_bytes(),
        );
        i64::lemma_pod_injective(a.tv_sec, b.tv_sec);
        i64::lemma_pod_injective(a.tv_nsec, b.tv_nsec);
    }

    fn pod_size_exec() -> usize {
        16
    }

    fn pod_zeroed() -> Self {
        let r = timespec { tv_sec: i64::pod_zeroed(), tv_nsec: i64::pod_zeroed() };
        proof {
            assert(r.pod_bytes() =~= Seq::new(16, |i: int| 0u8));
        }
        r
    }

    fn pod_write(&self, out: &mut Vec<u8>) {
        self.tv_sec.pod_write(out);
        self.tv_nsec.pod_write(out);
        assert(out@ =~= old(out)@ + self.pod_bytes());
    }

    fn pod_read(buf: &[u8], at: usize) -> Self {
        let _n = buf.len();
        let tv_sec = i64::pod_read(buf, at);
        let tv_nsec = i64::pod_read(buf, at + 8);
        let r = timespec { tv_sec, tv_nsec };
        proof {
            assert(r.pod_bytes() =~= buf@.subrange(at as int, at as int + 16));
        }
        r
    }
}

impl Pod for itimerspec {
    open spec fn pod_bytes(self) -> Seq<u8> {
        self.it_interval.pod_bytes() + self.it_value.pod_bytes()
    }

    open spec fn pod_size() -> nat {
        32
    }

    proof fn lemma_pod_size(self) {
        self.it_interval.lemma_pod_size();
        self.it_value.lemma_pod_size();
    }

    proof fn lemma_pod_injective(a: Self, b: Self) {
        a.it_interval.lemma_pod_size();
        b.it_interval.lemma_pod_size();
        lemma_concat_split(
            a.it_interval.pod_bytes(),
            a.it_value.pod_bytes(),
            b.it_interval.pod_bytes(),
            b.it_value.pod_bytes(),
        );
        timespec::lemma_pod_injective(a.it_interval, b.it_interval);
        timespec::lemma_pod_injective(a.it_value, b.it_value);
    }

    fn pod_size_exec() -> usize {
        32
    }

    fn pod_zeroed() -> Self {
        let r = itimerspec { it_interval: timespec::pod_zeroed(), it_value: timespec::pod_zeroed() };
        proof {
            assert(r.pod_bytes() =~= Seq::new(32, |i: int| 0u8));
        }
        r
    }

    fn pod_write(&self, out: &mut Vec<u8>) {
        self.it_interval.pod_write(out);
        self.it_value.pod_write(out);
        assert(out@ =~= old(out)@ + self.pod_bytes());
    }

    fn pod_read(buf: &[u8], at: usize) -> Self {
        let _n = buf.len();
        let it_interval = timespec::pod_read(buf, at);
        let it_value = timespec::pod_read(buf, at + 16);
        let r = itimerspec { it_interval, it_value };
        proof {
            assert(r.pod_bytes() =~= buf@.subrange(at as int, at as int + 32));
        }
        r
    }
}

impl Pod for epoll_event {
    open spec fn pod_bytes(self) -> Seq<u8> {
        self.events.pod_bytes() + self.data.pod_bytes()
    }

    open spec fn pod_size() -> nat {
        12
    }

    proof fn lemma_pod_size(self) {
        self.events.lemma_pod_size();
        self.data.lemma_pod_size();
    }

    proof fn lemma_pod_injective(a: Self, b: Self) {
        a.events.lemma_pod_size();
        a.data.lemma_pod_size();
        b.events.lemma_pod_size();
        b.data.lemma_pod_size();
        lemma_concat_split(
            a.events.pod_bytes(),
            a.data.pod_bytes(),
            b.events.pod_bytes(),
            b.data.pod_bytes(),
        );
        u32::lemma_pod_injective(a.events, b.events);
        u64::lemma_pod_injective(a.data, b.data);
    }

    fn pod_size_exec() -> usize {
        12
    }

    fn pod_zeroed() -> Self {
        let r = epoll_event { events: u32::pod_zeroed(), data: u64::pod_zeroed() };
        proof {
            assert(r.pod_bytes() =~= Seq::new(12, |i: int| 0u8));
        }
        r
    }

    fn pod_write(&self, out: &mut Vec<u8>) {
        self.events.pod_write(out);
        self.data.pod_write(out);
        assert(out@ =~= old(out)@ + self.pod_bytes());
    }

    fn pod_read(buf: &[u8], at: usize) -> Self {
        let _n = buf.len();
        let events = u32::pod_read(buf, at);
        let data = u64::pod_read(buf, at + 4);
        let r = epoll_event { events, data };
        proof {
            assert(r.pod_bytes() =~= buf@.subrange(at as int, at as int + 12));
        }
        r
    }
}


impl Pod for pollfd {
    open spec fn pod_bytes(self) -> Seq<u8> {
        self.fd.pod_bytes() + self.events.pod_bytes() + self.revents.pod_bytes()
    }

    open spec fn pod_size() -> nat {
        8
    }

    proof fn lemma_pod_size(self) {
        self.fd.lemma_pod_size();
        self.events.lemma_pod_size();
        self.revents.lemma_pod_size();
    }

    proof fn lemma_pod_injective(a: Self, b: Self) {
        a.fd.lemma_pod_size();
        a.events.lemma_pod_size();
        a.revents.lemma_pod_size();
        b.fd.lemma_pod_size();
        b.events.lemma_pod_size();
        b.revents.lemma_pod_size();
        lemma_concat_split(
            a.fd.pod_bytes() + a.events.pod_bytes(),
            a.revents.pod_bytes(),
            b.fd.pod_bytes() + b.events.pod_bytes(),
            b.revents.pod_bytes(),
        );
        lemma_concat_split(
            a.fd.pod_bytes(),
            a.events.pod_bytes(),
            b.fd.pod_bytes(),
            b.events.pod_bytes(),
        );
        i32::lemma_pod_injective(a.fd, b.fd);
        i16::lemma_pod_injective(a.events, b.events);
        i16::lemma_pod_injective(a.revents, b.revents);
    }

    fn pod_size_exec() -> usize {
        8
    }

    fn pod_zeroed() -> Self {
        let r = pollfd { fd: i32::pod_zeroed(), events: i16::pod_zeroed(), revents: i16::pod_zeroed() };
        proof {
            assert(r.pod_bytes() =~= Seq::new(8, |i: int| 0u8));
        }
        r
    }

    fn pod_write(&self, out: &mut Vec<u8>) {
        self.fd.pod_write(out);
        self.events.pod_write(out);
        self.revents.pod_write(out);
        assert(out@ =~= old(out)@ + self.pod_bytes());
    }

    fn pod_read(buf: &[u8], at: usize) -> Self {
        let _n = buf.len();
        let fd = i32::pod_read(buf, at);
        let events = i16::pod_read(buf, at + 4);
        let revents = i16::pod_read(buf, at + 6);
        let r = pollfd { fd, events, revents };
        proof {
            assert(r.pod_bytes() =~= buf@.subrange(at as int, at as int + 8));
        }
        r
    }
}


impl Pod for f_owner_ex {
    open spec fn pod_bytes(self) -> Seq<u8> {
        self.type_.pod_bytes() + self.pid.pod_bytes()
    }

    open spec fn pod_size() -> nat {
        8
    }

    proof fn lemma_pod_size(self) {
        self.type_.lemma_pod_size();
        self.pid.lemma_pod_size();
    }

    proof fn lemma_pod_injective(a: Self, b: Self) {
        a.type_.lemma_pod_size();
        a.pid.lemma_pod_size();
        b.type_.lemma_pod_size();
        b.pid.lemma_pod_size();
        lemma_concat_split(
            a.type_.pod_bytes(),
            a.pid.pod_bytes(),
            b.type_.pod_bytes(),
            b.pid.pod_bytes(),
        );
        i32::lemma_pod_injective(a.type_, b.type_);
        i32::lemma_pod_injective(a.pid, b.pid);
    }

    fn pod_size_exec() -> usize {
        8
    }

    fn pod_zeroed() -> Self {
        let r = f_owner_ex { type_: i32::pod_zeroed(), pid: i32::pod_zeroed() };
        proof {
            assert(r.pod_bytes() =~= Seq::new(8, |i: int| 0u8));
        }
        r
    }

    fn pod_write(&self, out: &mut Vec<u8>) {
        self.type_.pod_write(out);
        self.pid.pod_write(out);
        assert(out@ =~= old(out)@ + self.pod_bytes());
    }

    fn pod_read(buf: &[u8], at: usize) -> Self {
        let _n = buf.len();
        let type_ = i32::pod_read(buf, at);
        let pid = i32::pod_read(buf, at + 4);
        let r = f_owner_ex { type_, pid };
        proof {
            assert(r.pod_bytes() =~= buf@.subrange(at as int, at as int + 8));
        }
        r
    }
}


impl Pod for winsize {
    open spec fn pod_bytes(self) -> Seq<u8> {
        self.ws_row.pod_bytes() + self.ws_col.pod_bytes() + self.ws_xpixel.pod_bytes() + self.ws_ypixel.pod_bytes()
    }

    open spec fn pod_size() -> nat {
        8
    }

    proof fn lemma_pod_size(self) {
        self.ws_row.lemma_pod_size();
        self.ws_col.lemma_pod_size();
        self.ws_xpixel.lemma_pod_size();
        self.ws_ypixel.lemma_pod_size();
    }

    proof fn lemma_pod_injective(a: Self, b: Self) {
        a.ws_row.lemma_pod_size();
        a.ws_col.lemma_pod_size();
        a.ws_xpixel.lemma_pod_size();
        a.ws_ypixel.lemma_pod_size();
        b.ws_row.lemma_pod_size();
        b.ws_col.lemma_pod_size();
        b.ws_xpixel.lemma_pod_size();
        b.ws_ypixel.lemma_pod_size();
        lemma_concat_split(
            a.ws_row.pod_bytes() + a.ws_col.pod_bytes() + a.ws_xpixel.pod_bytes(),
            a.ws_ypixel.pod_bytes(),
            b.ws_row.pod_bytes() + b.ws_col.pod_bytes() + b.ws_xpixel.pod_bytes(),
            b.ws_ypixel.pod_bytes(),
        );
        lemma_concat_split(
            a.ws_row.pod_bytes() + a.ws_col.pod_bytes(),
            a.ws_xpixel.pod_bytes(),
            b.ws_row.pod_bytes() + b.ws_col.pod_bytes(),
            b.ws_xpixel.pod_bytes(),
        );
        lemma_concat_split(
            a.ws_row.pod_bytes(),
            a.ws_col.pod_bytes(),
            b.ws_row.pod_bytes(),
            b.ws_col.pod_bytes(),
        );
        u16::lemma_pod_injective(a.ws_row, b.ws_row);
        u16::lemma_pod_injective(a.ws_col, b.ws_col);
        u16::lemma_pod_injective(a.ws_xpixel, b.ws_xpixel);
        u16::lemma_pod_injective(a.ws_ypixel, b.ws_ypixel);
    }

    fn pod_size_exec() -> usize {
        8
    }

    fn pod_zeroed() -> Self {
        let r = winsize { ws_row: u16::pod_zeroed(), ws_col: u16::pod_zeroed(), ws_xpixel: u16::pod_zeroed(), ws_ypixel: u16::pod_zeroed() };
        proof {
            assert(r.pod_bytes() =~= Seq::new(8, |i: int| 0u8));
        }
        r
    }

    fn pod_write(&self, out: &mut Vec<u8>) {
        self.ws_row.pod_write(out);
        self.ws_col.pod_write(out);
        self.ws_xpixel.pod_write(out);
        self.ws_ypixel.pod_write(out);
        assert(out@ =~= old(out)@ + self.pod_bytes());
    }

    fn pod_read(buf: &[u8], at: usize) -> Self {
        let _n = buf.len();
        let ws_row = u16::pod_read(buf, at);
        let ws_col = u16::pod_read(buf, at + 2);
        let ws_xpixel = u16::pod_read(buf, at + 4);
        let ws_ypixel = u16::pod_read(buf, at + 6);
        let r = winsize { ws_row, ws_col, ws_xpixel, ws_ypixel };
        proof {
            assert(r.pod_bytes() =~= buf@.subrange(at as int, at as int + 8));
        }
        r
    }
}


impl Pod for termios2 {
    open spec fn pod_bytes(self) -> Seq<u8> {
        self.c_iflag.pod_bytes() + self.c_oflag.pod_bytes() + self.c_cflag.pod_bytes() + self.c_lflag.pod_bytes() + self.c_line.pod_bytes() + self.c_cc.pod_bytes() + self.c_ispeed.pod_bytes() + self.c_ospeed.pod_bytes()
    }

    open spec fn pod_size() -> nat {
        44
    }

    proof fn lemma_pod_size(self) {
        self.c_iflag.lemma_pod_size();
        self.c_oflag.lemma_pod_size();
        self.c_cflag.lemma_pod_size();
        self.c_lflag.lemma_pod_size();
        self.c_line.lemma_pod_size();
        self.c_cc.lemma_pod_size();
        self.c_ispeed.lemma_pod_size();
        self.c_ospeed.lemma_pod_size();
    }

    proof fn lemma_pod_injective(a: Self, b: Self) {
        a.c_iflag.lemma_pod_size();
        a.c_oflag.lemma_pod_size();
        a.c_cflag.lemma_pod_size();
        a.c_lflag.lemma_pod_size();
        a.c_line.lemma_pod_size();
        a.c_cc.lemma_pod_size();
        a.c_ispeed.lemma_pod_size();
        a.c_ospeed.lemma_pod_size();
        b.c_iflag.lemma_pod_size();
        b.c_oflag.lemma_pod_size();
        b.c_cflag.lemma_pod_size();
        b.c_lflag.lemma_pod_size();
        b.c_line.lemma_pod_size();
        b.c_cc.lemma_pod_size();
        b.c_ispeed.lemma_pod_size();
        b.c_ospeed.lemma_pod_size();
        lemma_concat_split(
            a.c_iflag.pod_bytes() + a.c_oflag.pod_bytes() + a.c_cflag.pod_bytes() + a.c_lflag.pod_bytes() + a.c_line.pod_bytes() + a.c_cc.pod_bytes() + a.c_ispeed.pod_bytes(),
            a.c_ospeed.pod_bytes(),
            b.c_iflag.pod_bytes() + b.c_oflag.pod_bytes() + b.c_cflag.pod_bytes() + b.c_lflag.pod_bytes() + b.c_line.pod_bytes() + b.c_cc.pod_bytes() + b.c_ispeed.pod_bytes(),
            b.c_ospeed.pod_bytes(),
        );
        lemma_concat_split(
            a.c_iflag.pod_bytes() + a.c_oflag.pod_bytes() + a.c_cflag.pod_bytes() + a.c_lflag.pod_bytes() + a.c_line.pod_bytes() + a.c_cc.pod_bytes(),
            a.c_ispeed.pod_bytes(),
            b.c_iflag.pod_bytes() + b.c_oflag.pod_bytes() + b.c_cflag.pod_bytes() + b.c_lflag.pod_bytes() + b.c_line.pod_bytes() + b.c_cc.pod_bytes(),
            b.c_ispeed.pod_bytes(),
        );
        lemma_concat_split(
            a.c_iflag.pod_bytes() + a.c_oflag.pod_bytes() + a.c_cflag.pod_bytes() + a.c_lflag.pod_bytes() + a.c_line.pod_bytes(),
            a.c_cc.pod_bytes(),
            b.c_iflag.pod_bytes() + b.c_oflag.pod_bytes() + b.c_cflag.pod_bytes() + b.c_lflag.pod_bytes() + b.c_line.pod_bytes(),
            b.c_cc.pod_bytes(),
        );
        lemma_concat_split(
            a.c_iflag.pod_bytes() + a.c_oflag.pod_bytes() + a.c_cflag.pod_bytes() + a.c_lflag.pod_bytes(),
            a.c_line.pod_bytes(),
            b.c_iflag.pod_bytes() + b.c_oflag.pod_bytes() + b.c_cflag.pod_bytes() + b.c_lflag.pod_bytes(),
            b.c_line.pod_bytes(),
        );
        lemma_concat_split(
            a.c_iflag.pod_bytes() + a.c_oflag.pod_bytes() + a.c_cflag.pod_bytes(),
            a.c_lflag.pod_bytes(),
            b.c_iflag.pod_bytes() + b.c_oflag.pod_bytes() + b.c_cflag.pod_bytes(),
            b.c_lflag.pod_bytes(),
        );
        lemma_concat_split(
            a.c_iflag.pod_bytes() + a.c_oflag.pod_bytes(),
            a.c_cflag.pod_bytes(),
            b.c_iflag.pod_bytes() + b.c_oflag.pod_bytes(),
            b.c_cflag.pod_bytes(),
        );
        lemma_concat_split(
            a.c_iflag.pod_bytes(),
            a.c_oflag.pod_bytes(),
            b.c_iflag.pod_bytes(),
            b.c_oflag.pod_bytes(),
        );
        u32::lemma_pod_injective(a.c_iflag, b.c_iflag);
        u32::lemma_pod_injective(a.c_oflag, b.c_oflag);
        u32::lemma_pod_injective(a.c_cflag, b.c_cflag);
        u32::lemma_pod_injective(a.c_lflag, b.c_lflag);
        u8::lemma_pod_injective(a.c_line, b.c_line);
        <[u8; 19] as Pod>::lemma_pod_injective(a.c_cc, b.c_cc);
        u32::lemma_pod_injective(a.c_ispeed, b.c_ispeed);
        u32::lemma_pod_injective(a.c_ospeed, b.c_ospeed);
    }

    fn pod_size_exec() -> usize {
        44
    }

    fn pod_zeroed() -> Self {
        let r = termios2 { c_iflag: u32::pod_zeroed(), c_oflag: u32::pod_zeroed(), c_cflag: u32::pod_zeroed(), c_lflag: u32::pod_zeroed(), c_line: u8::pod_zeroed(), c_cc: <[u8; 19] as Pod>::pod_zeroed(), c_ispeed: u32::pod_zeroed(), c_ospeed: u32::pod_zeroed() };
        proof {
            assert(r.pod_bytes() =~= Seq::new(44, |i: int| 0u8));
        }
        r
    }

    fn pod_write(&self, out: &mut Vec<u8>) {
        self.c_iflag.pod_write(out);
        self.c_oflag.pod_write(out);
        self.c_cflag.pod_write(out);
        self.c_lflag.pod_write(out);
        self.c_line.pod_write(out);
        self.c_cc.pod_write(out);
        self.c_ispeed.pod_write(out);
        self.c_ospeed.pod_write(out);
        assert(out@ =~= old(out)@ + self.pod_bytes());
    }

    fn pod_read(buf: &[u8], at: usize) -> Self {
        let _n = buf.len();
        let c_iflag = u32::pod_read(buf, at);
        let c_oflag = u32::pod_read(buf, at + 4);
        let c_cflag = u32::pod_read(buf, at + 8);
        let c_lflag = u32::pod_read(buf, at + 12);
        let c_line = u8::pod_read(buf, at + 16);
        let c_cc = <[u8; 19] as Pod>::pod_read(buf, at + 17);
        let c_ispeed = u32::pod_read(buf, at + 36);
        let c_ospeed = u32::pod_read(buf, at + 40);
        let r = termios2 { c_iflag, c_oflag, c_cflag, c_lflag, c_line, c_cc, c_ispeed, c_ospeed };
        proof {
            assert(r.pod_bytes() =~= buf@.subrange(at as int, at as int + 44));
        }
        r
    }
}

impl Pod for [u8; 19] {
    open spec fn pod_bytes(self) -> Seq<u8> {
        self@
    }

    open spec fn pod_size() -> nat {
        19
    }

    proof fn lemma_pod_size(self) {
        broadcast use vstd::array::group_array_axioms;

    }

    proof fn lemma_pod_injective(a: Self, b: Self) {
        broadcast use vstd::array::group_array_axioms;

        assert(a =~= b);
    }

    fn pod_size_exec() -> usize {
        19
    }

    fn pod_zeroed() -> Self {
        broadcast use vstd::array::group_array_axioms;

        let r = [0u8; 19];
        proof {
            assert(r.pod_bytes() =~= Seq::new(19, |i: int| 0u8));
        }
        r
    }

    fn pod_write(&self, out: &mut Vec<u8>) {
        broadcast use vstd::array::group_array_axioms;

        let mut i: usize = 0;
        while i < 19
            invariant
                i <= 19,
                out@ == old(out)@ + self@.take(i as int),
            decreases 19 - i,
        {
            let b = self[i];
            out.push(b);
            proof {
                assert(out@ =~= old(out)@ + self@.take(i + 1 as int));
            }
            i = i + 1;
        }
        assert(out@ =~= old(out)@ + self.pod_bytes());
    }

    fn pod_read(buf: &[u8], at: usize) -> Self {
        broadcast use vstd::array::group_array_axioms;

        let _n = buf.len();
        let mut r = [0u8; 19];
        let mut i: usize = 0;
        while i < 19
            invariant
                i <= 19,
                at + 19 <= buf@.len(),
                buf@.len() == _n,
                forall|j: int| 0 <= j < i ==> r@[j] == buf@[at + j],
            decreases 19 - i,
        {
            r[i] = buf[at + i];
            i = i + 1;
        }
        proof {
            assert(r.pod_bytes() =~= buf@.subrange(at as int, at as int + 19));
        }
        r
    }
}

impl Pod for sigset_t {
    open spec fn pod_bytes(self) -> Seq<u8> {
        crate::pod::u64_le(self.sig[0])
    }

    open spec fn pod_size() -> nat {
        8
    }

    proof fn lemma_pod_size(self) {
    }

    proof fn lemma_pod_injective(a: Self, b: Self) {
        broadcast use vstd::array::group_array_axioms;

        u64::lemma_pod_injective(a.sig[0], b.sig[0]);
        assert(a.sig =~= b.sig);
    }

    fn pod_size_exec() -> usize {
        8
    }

    fn pod_zeroed() -> Self {
        broadcast use vstd::array::group_array_axioms;

        let r = sigset_t { sig: [0u64; 1] };
        proof {
            crate::pod::lemma_le_zero();
        }
        r
    }

    fn pod_write(&self, out: &mut Vec<u8>) {
        broadcast use vstd::array::group_array_axioms;

        let w = self.sig[0];
        w.pod_write(out);
    }

    fn pod_read(buf: &[u8], at: usize) -> Self {
        broadcast use vstd::array::group_array_axioms;

        let x = u64::pod_read(buf, at);
        let r = sigset_t { sig: [x; 1] };
        assert(r.sig[0] == x);
        r
    }
}

/// An ioctl request number for a read-style command whose argument is a
/// `T` passed out of the kernel; the size field is the byte size of `T`.
pub fn _IOR<T: Pod>(ty: c_uint, nr: c_uint) -> (r: c_uint)
    ensures
        r == spec_ioc(_IOC_READ, ty, nr, T::pod_size() as c_uint),
{
    let size = T::pod_size_exec();
    _IOC(_IOC_READ, ty, nr, size as c_uint)
}

/// An ioctl request number for a write-style command whose argument is a
/// `T` passed into the kernel; the size field is the byte size of `T`.
pub fn _IOW<T: Pod>(ty: c_uint, nr: c_uint) -> (r: c_uint)
    ensures
        r == spec_ioc(_IOC_WRITE, ty, nr, T::pod_size() as c_uint),
{
    let size = T::pod_size_exec();
    _IOC(_IOC_WRITE, ty, nr, size as c_uint)
}

/// An ioctl request number for a command whose argument is a `T` passed
/// both ways.
pub fn _IOWR<T: Pod>(ty: c_uint, nr: c_uint) -> (r: c_uint)
    ensures
        r == spec_ioc(_IOC_READ | _IOC_WRITE, ty, nr, T::pod_size() as c_uint),
{
    let size = T::pod_size_exec();
    _IOC(_IOC_READ | _IOC_WRITE, ty, nr, size as c_uint)
}

/// The historical read-style encoding; identical to `_IOR` in this ABI.
pub fn _IOR_BAD<T: Pod>(ty: c_uint, nr: c_uint) -> (r: c_uint)
    ensures
        r == spec_ioc(_IOC_READ, ty, nr, T::pod_size() as c_uint),
{
    _IOR::<T>(ty, nr)
}

/// The historical write-style encoding; identical to `_IOW` in this ABI.
pub fn _IOW_BAD<T: Pod>(ty: c_uint, nr: c_uint) -> (r: c_uint)
    ensures
        r == spec_ioc(_IOC_WRITE, ty, nr, T::pod_size() as c_uint),
{
    _IOW::<T>(ty, nr)
}

/// The historical read-write encoding; identical to `_IOWR` in this ABI.
pub fn _IOWR_BAD<T: Pod>(ty: c_uint, nr: c_uint) -> (r: c_uint)
    ensures
        r == spec_ioc(_IOC_READ | _IOC_WRITE, ty, nr, T::pod_size() as c_uint),
{
    _IOWR::<T>(ty, nr)
}

/// The ioctl request number that reads the `termios2` record.
pub fn TCGETS2() -> (r: c_uint)
    ensures
        r == spec_ioc(_IOC_READ, 84, 0x2A, 44),
{
    _IOR::<termios2>(84, 0x2A)
}

/// The ioctl request number that writes the `termios2` record.
pub fn TCSETS2() -> (r: c_uint)
    ensures
        r == spec_ioc(_IOC_WRITE, 84, 0x2B, 44),
{
    _IOW::<termios2>(84, 0x2B)
}

/// The ioctl request number that writes the `termios2` record after
/// draining output.
pub fn TCSETSW2() -> (r: c_uint)
    ensures
        r == spec_ioc(_IOC_WRITE, 84, 0x2C, 44),
{
    _IOW::<termios2>(84, 0x2C)
}

/// The ioctl request number that writes the `termios2` record after
/// draining output and discarding input.
pub fn TCSETSF2() -> (r: c_uint)
    ensures
        r == spec_ioc(_IOC_WRITE, 84, 0x2D, 44),
{
    _IOW::<termios2>(84, 0x2D)
}

/// The ioctl request number that reads a pseudoterminal's index.
pub fn TIOCGPTN() -> (r: c_uint)
    ensures
        r == spec_ioc(_IOC_READ, 84, 0x30, 4),
{
    _IOR::<c_uint>(84, 0x30)
}

/// The ioctl request number that locks or unlocks a pseudoterminal.
pub fn TIOCSPTLCK() -> (r: c_uint)
    ensures
        r == spec_ioc(_IOC_WRITE, 84, 0x31, 4),
{
    _IOW::<c_int>(84, 0x31)
}

/// The ioctl request number that reads the underlying device number.
pub fn TIOCGDEV() -> (r: c_uint)
    ensures
        r == spec_ioc(_IOC_READ, 84, 0x32, 4),
{
    _IOR::<c_uint>(84, 0x32)
}

/// The ioctl request number that sends a signal to a pseudoterminal
/// client.
pub fn TIOCSIG() -> (r: c_uint)
    ensures
        r == spec_ioc(_IOC_WRITE, 84, 0x36, 4),
{
    _IOW::<c_int>(84, 0x36)
}

/// The ioctl request number that reads packet-mode state.
pub fn TIOCGPKT() -> (r: c_uint)
    ensures
        r == spec_ioc(_IOC_READ, 84, 0x38, 4),
{
    _IOR::<c_int>(84, 0x38)
}

/// The ioctl request number that reads the pseudoterminal lock state.
pub fn TIOCGPTLCK() -> (r: c_uint)
    ensures
        r == spec_ioc(_IOC_READ, 84, 0x39, 4),
{
    _IOR::<c_int>(84, 0x39)
}

/// The ioctl request number that reads exclusive-mode state.
pub fn TIOCGEXCL() -> (r: c_uint)
    ensures
        r == spec_ioc(_IOC_READ, 84, 0x40, 4),
{
    _IOR::<c_int>(84, 0x40)
}

} // verus!
