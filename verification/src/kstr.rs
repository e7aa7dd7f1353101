//! Kernel string constants: byte strings checked to hold no terminator
//! byte and stored with one appended, ready to hand to the kernel. The
//! check happens at construction; a string holding a terminator of its own
//! is rejected, never silently truncated.

use vstd::prelude::*;
use crate::string::util::{memchr_first, bytes_between, contains_byte};

verus! {

/// A terminator-ended kernel string built from checked content.
#[derive(Clone, Debug, PartialEq, Eq)]
pub struct KStr {
    bytes: Vec<u8>,
}

impl View for KStr {
    type V = Seq<u8>;

    closed spec fn view(&self) -> Seq<u8> {
        self.bytes@
    }
}

impl KStr {
    /// Well-formed when the last byte is the terminator and no earlier
    /// byte is.
    pub open spec fn wf(&self) -> bool {
        self@.len() >= 1 && self@[self@.len() - 1] == 0 && (forall|i: int|
            0 <= i < self@.len() - 1 ==> self@[i] != 0)
    }

    /// Builds a kernel string from its content: rejected if the content
    /// holds a terminator byte, otherwise stored with one appended.
    pub fn new(content: &[u8]) -> (r: Option<KStr>)
        ensures
            r is Some <==> !contains_byte(content@, 0),
            r matches Some(s) ==> s@ == content@ + seq![0u8] && s.wf(),
    {
        match memchr_first(0, content) {
            Some(_) => None,
            None => {
                let n = content.len();
                let mut bytes = bytes_between(content, 0, n);
                proof {
                    assert(content@.subrange(0, n as int) =~= content@);
                }
                bytes.push(0);
                let s = KStr { bytes };
                proof {
                    assert(s@ =~= content@ + seq![0u8]);
                }
                Some(s)
            },
        }
    }

    /// The contained bytes, including the terminator.
    pub fn bytes_with_null(&self) -> (r: &Vec<u8>)
        ensures
            r@ == self@,
    {
        &self.bytes
    }

    /// The number of content bytes, the terminator not counted.
    pub fn len(&self) -> (n: usize)
        requires
            self.wf(),
        ensures
            n == self@.len() - 1,
    {
        self.bytes.len() - 1
    }
}

} // verus!
