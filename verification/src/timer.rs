//! Timers backed by a timer descriptor. A `Timer` wraps the descriptor
//! under the ownership discipline; each operation on it is a kernel call
//! whose argument record this module builds and whose result it decodes,
//! both verified. The embedder issues the calls (`timerfd_settime`,
//! `timerfd_gettime`, `read`, `close`) with exactly these values.

use vstd::prelude::*;
use crate::fd::FdContainer;
use crate::kty::{c_int, itimerspec, timespec, TFD_TIMER_ABSTIME};
use crate::lmem;
use crate::pod::u64_from_le;
use crate::time::{Time, time_to_timespec, time_from_timespec};

verus! {

/// A setting to hand to the kernel's timer-arming call: its flag word and
/// its argument record.
#[derive(Clone, Copy, Debug, PartialEq, Eq, Structural)]
pub struct TimerCmd {
    /// The flag word of the arming call: zero, or the absolute-time flag.
    pub flags: c_int,
    /// The interval and initial expiration handed to the kernel.
    pub arg: itimerspec,
}

/// A timer descriptor.
pub struct Timer {
    fd: c_int,
    owned: bool,
}

/// The zero timespec.
pub open spec fn spec_zero_ts() -> timespec {
    timespec { tv_sec: 0, tv_nsec: 0 }
}

impl Timer {
    /// The setting that disables the timer: an all-zero argument record.
    pub fn disable(&self) -> (c: TimerCmd)
        ensures
            c.flags == 0,
            c.arg == (itimerspec { it_interval: spec_zero_ts(), it_value: spec_zero_ts() }),
    {
        let zero = timespec { tv_sec: 0, tv_nsec: 0 };
        TimerCmd { flags: 0, arg: itimerspec { it_interval: zero, it_value: zero } }
    }

    /// The setting that makes the timer expire every `iv` time units,
    /// starting one interval from now.
    pub fn interval(&self, iv: Time) -> (c: TimerCmd)
        ensures
            c.flags == 0,
            c.arg.it_interval.tv_sec == iv.seconds && c.arg.it_interval.tv_nsec
                == iv.nanoseconds,
            c.arg.it_value.tv_sec == iv.seconds && c.arg.it_value.tv_nsec == iv.nanoseconds,
    {
        TimerCmd {
            flags: 0,
            arg: itimerspec {
                it_interval: time_to_timespec(iv),
                it_value: time_to_timespec(iv),
            },
        }
    }

    /// The setting that makes the timer expire every `iv` time units,
    /// starting at the absolute time `start`.
    pub fn interval_from(&self, iv: Time, start: Time) -> (c: TimerCmd)
        ensures
            c.flags == TFD_TIMER_ABSTIME,
            c.arg.it_interval.tv_sec == iv.seconds && c.arg.it_interval.tv_nsec
                == iv.nanoseconds,
            c.arg.it_value.tv_sec == start.seconds && c.arg.it_value.tv_nsec
                == start.nanoseconds,
    {
        TimerCmd {
            flags: TFD_TIMER_ABSTIME,
            arg: itimerspec {
                it_interval: time_to_timespec(iv),
                it_value: time_to_timespec(start),
            },
        }
    }

    /// The setting that makes the timer expire every `iv` time units,
    /// starting in `when` units from now.
    pub fn interval_in(&self, iv: Time, when: Time) -> (c: TimerCmd)
        ensures
            c.flags == 0,
            c.arg.it_interval.tv_sec == iv.seconds && c.arg.it_interval.tv_nsec
                == iv.nanoseconds,
            c.arg.it_value.tv_sec == when.seconds && c.arg.it_value.tv_nsec
                == when.nanoseconds,
    {
        TimerCmd {
            flags: 0,
            arg: itimerspec {
                it_interval: time_to_timespec(iv),
                it_value: time_to_timespec(when),
            },
        }
    }

    /// The setting that makes the timer expire once, at the absolute time
    /// `when`.
    pub fn once_at(&self, when: Time) -> (c: TimerCmd)
        ensures
            c.flags == TFD_TIMER_ABSTIME,
            c.arg.it_interval == spec_zero_ts(),
            c.arg.it_value.tv_sec == when.seconds && c.arg.it_value.tv_nsec
                == when.nanoseconds,
    {
        TimerCmd {
            flags: TFD_TIMER_ABSTIME,
            arg: itimerspec {
                it_interval: timespec { tv_sec: 0, tv_nsec: 0 },
                it_value: time_to_timespec(when),
            },
        }
    }

    /// The setting that makes the timer expire once, in `when` time units
    /// from now.
    pub fn once_in(&self, when: Time) -> (c: TimerCmd)
        ensures
            c.flags == 0,
            c.arg.it_interval == spec_zero_ts(),
            c.arg.it_value.tv_sec == when.seconds && c.arg.it_value.tv_nsec
                == when.nanoseconds,
    {
        TimerCmd {
            flags: 0,
            arg: itimerspec {
                it_interval: timespec { tv_sec: 0, tv_nsec: 0 },
                it_value: time_to_timespec(when),
            },
        }
    }

    /// The status of the timer, decoded from the record the kernel's
    /// timer-reading call filled in: the interval and the time until the
    /// next expiration.
    pub fn status(&self, arg: itimerspec) -> (r: (Time, Time))
        ensures
            r.0.seconds == arg.it_interval.tv_sec && r.0.nanoseconds == arg.it_interval.tv_nsec,
            r.1.seconds == arg.it_value.tv_sec && r.1.nanoseconds == arg.it_value.tv_nsec,
    {
        (time_from_timespec(arg.it_interval), time_from_timespec(arg.it_value))
    }

    /// The number of expirations since the last read, decoded from the
    /// bytes a read of the timer descriptor produced: the kernel hands
    /// back one little-endian 64-bit count.
    pub fn ticks(&self, buf: &[u8]) -> (r: Option<u64>)
        ensures
            r is Some <==> buf@.len() >= 8,
            r matches Some(v) ==> v == u64_from_le(buf@.subrange(0, 8)),
    {
        let v = lmem::from_bytes::<u64>(buf);
        proof {
            if buf@.len() >= 8 {
                let s = buf@.subrange(0, 8);
                crate::pod::lemma_u64_le_round_trip(v->Some_0, s);
            }
        }
        v
    }
}

impl FdContainer for Timer {
    closed spec fn raw_fd(&self) -> c_int {
        self.fd
    }

    closed spec fn owned(&self) -> bool {
        self.owned
    }

    fn is_owned(&self) -> bool {
        self.owned
    }

    fn borrow(&self) -> c_int {
        self.fd
    }

    fn from_owned(fd: c_int) -> (r: Timer)
        ensures
            r.owned(),
    {
        Timer { fd, owned: true }
    }

    fn from_borrowed(fd: c_int) -> Timer {
        Timer { fd, owned: false }
    }
}

} // verus!
