//! Parsing byte sequences into typed values: a type declares what its
//! parse yields on any byte sequence, and the whole-buffer parse succeeds
//! exactly when an initial parse consumes every byte.

use vstd::prelude::*;
use crate::result::{Errno, EINVAL};

verus! {

/// Types that are parsable from bytes.
///
/// An implementor states in `spec_parse` what parsing means for it:
/// `None` where the bytes hold no value of the type, or the value and how
/// many bytes it took. The executable parsers are then held to that
/// statement.
pub trait Parsable: Sized {
    /// What parsing an initial sequence of `bytes` yields: a value and
    /// the number of bytes consumed, if any. An implementation that does
    /// not say otherwise parses nothing.
    open spec fn spec_parse(bytes: Seq<u8>) -> Option<(Self, int)> {
        None
    }

    /// Tries to parse an initial sequence of the bytes as a value of this
    /// type, returning the value and the number of bytes consumed.
    fn parse_bytes_init(bytes: &[u8]) -> (r: Result<(Self, usize), Errno>)
        ensures
            (r matches Ok(p) ==> Self::spec_parse(bytes@) == Some((p.0, p.1 as int)) && p.1
                <= bytes@.len()),
            (r is Err ==> Self::spec_parse(bytes@) is None),
    ;

    /// Tries to parse the whole byte buffer as a value of this type; it
    /// fails with the invalid-argument error if an initial parse succeeds
    /// but leaves bytes over.
    fn parse_bytes(bytes: &[u8]) -> (r: Result<Self, Errno>)
        ensures
            (r matches Ok(v) ==> Self::spec_parse(bytes@) == Some((v, bytes@.len() as int))),
            (Self::spec_parse(bytes@) matches Some(p) ==> (p.1 == bytes@.len() ==> r == Ok::<
                Self,
                Errno,
            >(p.0))),
    {
        match Self::parse_bytes_init(bytes) {
            Ok((v, l)) => {
                if l == bytes.len() {
                    Ok(v)
                } else {
                    Err(Errno(EINVAL))
                }
            },
            Err(e) => Err(e),
        }
    }
}

/// Types whose contents can be parsed.
pub trait Parse {
    /// Tries to parse the object's bytes as a `P`.
    fn parse<P: Parsable>(&self) -> Result<P, Errno>;
}

impl Parse for crate::string::ByteStr {
    fn parse<P: Parsable>(&self) -> (r: Result<P, Errno>)
        ensures
            (r matches Ok(v) ==> P::spec_parse(self@) == Some((v, self@.len() as int))),
    {
        P::parse_bytes(self.as_bytes().as_slice())
    }
}

} // verus!
