//! A minimal runtime layer for talking directly to the Linux kernel:
//! typed results for raw kernel-call return words, a configurable retry
//! policy for interrupted calls, byte-exact kernel-ABI data layouts backed
//! by a plain-old-data capability, a futex-style lock protocol, and an
//! ownership discipline for raw descriptors.
//!
//! The kernel traps themselves (architecture-specific instructions) cannot
//! be expressed here; everything that decides, computes, encodes or decodes
//! around them is, with contracts.

pub mod fd;
pub mod io;
pub mod kstr;
pub mod kty;
pub mod lmem;
pub mod lock;
pub mod parse;
pub mod pod;
pub mod result;
pub mod retry;
pub mod string;
pub mod time;
pub mod timer;

pub use result::Errno;
pub use result::to_result;
pub use retry::RawOp;
pub use retry::RetryPolicy;
pub use retry::retry;
