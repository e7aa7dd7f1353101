//! A byte string with no embedded terminator bytes, as kernel path
//! components require.

use vstd::prelude::*;
use crate::string::util::{
    memchr_first, memchr_last, bytes_between, contains_byte, last_index_of, lemma_last_index_of,
};

verus! {

/// A byte slice with no null bytes.
#[derive(Clone, Debug, PartialEq, Eq)]
pub struct NoNullStr {
    bytes: Vec<u8>,
}

impl View for NoNullStr {
    type V = Seq<u8>;

    closed spec fn view(&self) -> Seq<u8> {
        self.bytes@
    }
}

/// The byte that separates path components.
pub const SLASH: u8 = 47;

impl NoNullStr {
    /// Well-formed when no byte is the terminator.
    pub open spec fn wf(&self) -> bool {
        forall|i: int| 0 <= i < self@.len() ==> self@[i] != 0
    }

    /// Wraps a byte buffer, if it holds no terminator byte.
    pub fn from_bytes(bytes: Vec<u8>) -> (r: Option<NoNullStr>)
        ensures
            r is Some <==> !contains_byte(bytes@, 0),
            r matches Some(s) ==> s@ == bytes@ && s.wf(),
    {
        match memchr_first(0, bytes.as_slice()) {
            Some(_) => None,
            None => {
                let s = NoNullStr { bytes };
                Some(s)
            },
        }
    }

    /// The underlying bytes.
    pub fn as_bytes(&self) -> (r: &Vec<u8>)
        ensures
            r@ == self@,
    {
        &self.bytes
    }

    /// The number of bytes.
    pub fn len(&self) -> (n: usize)
        ensures
            n == self@.len(),
    {
        self.bytes.len()
    }

    /// Sets the byte at `idx` to `val`; the terminator byte is not a
    /// legal value.
    pub fn set(&mut self, idx: usize, val: u8)
        requires
            old(self).wf(),
            idx < old(self)@.len(),
            val != 0,
        ensures
            final(self)@ == old(self)@.update(idx as int, val),
            final(self).wf(),
    {
        self.bytes.set(idx, val);
    }

    /// Splits the string into its directory and file components: the
    /// parts before and after the last separator; without a separator the
    /// directory is empty and the file is the whole string.
    pub fn split_path(&self) -> (r: (NoNullStr, NoNullStr))
        requires
            self.wf(),
        ensures
            contains_byte(self@, SLASH) ==> ({
                let p = last_index_of(self@, SLASH);
                0 <= p < self@.len() && self@[p] == SLASH && r.0@ == self@.subrange(0, p)
                    && r.1@ == self@.subrange(p + 1, self@.len() as int)
            }),
            !contains_byte(self@, SLASH) ==> r.0@ == Seq::<u8>::empty() && r.1@ == self@,
            r.0.wf(),
            r.1.wf(),
    {
        let n = self.bytes.len();
        match memchr_last(SLASH, self.bytes.as_slice()) {
            Some(p) => {
                proof {
                    lemma_last_index_of(self@, SLASH, p as int);
                }
                let left = bytes_between(self.bytes.as_slice(), 0, p);
                let right = bytes_between(self.bytes.as_slice(), p + 1, n);
                (NoNullStr { bytes: left }, NoNullStr { bytes: right })
            },
            None => {
                let left: Vec<u8> = Vec::new();
                let right = bytes_between(self.bytes.as_slice(), 0, n);
                proof {
                    assert(self@.subrange(0, n as int) =~= self@);
                }
                (NoNullStr { bytes: left }, NoNullStr { bytes: right })
            },
        }
    }

    /// The segment after the last separator.
    pub fn file(&self) -> (r: NoNullStr)
        requires
            self.wf(),
        ensures
            contains_byte(self@, SLASH) ==> r@ == self@.subrange(
                last_index_of(self@, SLASH) + 1,
                self@.len() as int,
            ),
            !contains_byte(self@, SLASH) ==> r@ == self@,
            r.wf(),
    {
        let (_, f) = self.split_path();
        f
    }

    /// The segment before the last separator.
    pub fn dir(&self) -> (r: NoNullStr)
        requires
            self.wf(),
        ensures
            contains_byte(self@, SLASH) ==> r@ == self@.subrange(0, last_index_of(self@, SLASH)),
            !contains_byte(self@, SLASH) ==> r@ == Seq::<u8>::empty(),
            r.wf(),
    {
        let (d, _) = self.split_path();
        d
    }
}

} // verus!
