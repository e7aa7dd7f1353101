//! Byte-string types with structural invariants: plain byte strings,
//! strings free of embedded terminator bytes, and terminator-ended
//! strings as the kernel expects path and name arguments.

pub mod byte_str;
pub mod c_str;
pub mod no_null_str;
pub mod util;

pub use byte_str::ByteStr;
pub use c_str::CStr;
pub use no_null_str::NoNullStr;
