//! A byte string with exactly one terminator byte, at the very end: the
//! form in which the kernel takes path and name arguments.

use vstd::prelude::*;
use crate::string::no_null_str::{NoNullStr, SLASH};
use crate::string::util::{
    memchr_first, bytes_between, contains_byte, last_index_of,
};

verus! {

/// A byte slice that has exactly one null byte, at the very end.
#[derive(Clone, Debug, PartialEq, Eq)]
pub struct CStr {
    bytes: Vec<u8>,
}

impl View for CStr {
    type V = Seq<u8>;

    closed spec fn view(&self) -> Seq<u8> {
        self.bytes@
    }
}

impl CStr {
    /// Well-formed when the last byte is the terminator and no earlier
    /// byte is.
    pub open spec fn wf(&self) -> bool {
        self@.len() >= 1 && self@[self@.len() - 1] == 0 && (forall|i: int|
            0 <= i < self@.len() - 1 ==> self@[i] != 0)
    }

    /// The content of the string: everything before the terminator.
    pub open spec fn content(&self) -> Seq<u8> {
        self@.drop_last()
    }

    /// The empty terminated string: a single terminator byte.
    pub fn empty() -> (r: CStr)
        ensures
            r@ == seq![0u8],
            r.wf(),
            r.content() == Seq::<u8>::empty(),
    {
        let mut bytes: Vec<u8> = Vec::new();
        bytes.push(0);
        proof {
            assert(bytes@ =~= seq![0u8]);
            assert(bytes@.drop_last() =~= Seq::<u8>::empty());
        }
        CStr { bytes }
    }

    /// Terminates a content buffer, if it holds no terminator byte of its
    /// own.
    pub fn from_bytes(content: &[u8]) -> (r: Option<CStr>)
        ensures
            r is Some <==> !contains_byte(content@, 0),
            r matches Some(s) ==> s@ == content@ + seq![0u8] && s.wf() && s.content()
                == content@,
    {
        match memchr_first(0, content) {
            Some(_) => None,
            None => {
                let n = content.len();
                let mut bytes = bytes_between(content, 0, n);
                proof {
                    assert(content@.subrange(0, n as int) =~= content@);
                }
                bytes.push(0);
                let s = CStr { bytes };
                proof {
                    assert(s@ =~= content@ + seq![0u8]);
                    assert(s.content() =~= content@);
                }
                Some(s)
            },
        }
    }

    /// The contained bytes, including the terminator.
    pub fn bytes_with_null(&self) -> (r: &Vec<u8>)
        ensures
            r@ == self@,
    {
        &self.bytes
    }

    /// The number of content bytes, the terminator not counted.
    pub fn len(&self) -> (n: usize)
        requires
            self.wf(),
        ensures
            n == self.content().len(),
    {
        self.bytes.len() - 1
    }

    /// The content as a string free of terminator bytes.
    pub fn as_no_null(&self) -> (r: NoNullStr)
        requires
            self.wf(),
        ensures
            r@ == self.content(),
            r.wf(),
    {
        let n = self.bytes.len();
        let content = bytes_between(self.bytes.as_slice(), 0, n - 1);
        proof {
            assert(self@.subrange(0, n - 1) =~= self.content());
        }
        let r = NoNullStr::from_bytes(content);
        match r {
            Some(s) => s,
            None => {
                proof {
                    assert(false);
                }
                NoNullStr::from_bytes(Vec::new()).unwrap()
            },
        }
    }

    /// Splits the string into its directory and file components: the
    /// directory (no terminator) before the last separator and the
    /// terminated file name after it; without a separator the directory
    /// is empty and the file is the whole string.
    #[verifier::rlimit(50)]
    #[verifier::spinoff_prover]
    pub fn split_path(&self) -> (r: (NoNullStr, CStr))
        requires
            self.wf(),
        ensures
            contains_byte(self.content(), SLASH) ==> ({
                let p = last_index_of(self.content(), SLASH);
                r.0@ == self.content().subrange(0, p) && r.1@ == self@.subrange(
                    p + 1,
                    self@.len() as int,
                )
            }),
            !contains_byte(self.content(), SLASH) ==> r.0@ == Seq::<u8>::empty() && r.1@
                == self@,
            r.0.wf(),
            r.1.wf(),
    {
        let inner = self.as_no_null();
        let (d, f) = inner.split_path();
        let mut fbytes = bytes_between(f.as_bytes().as_slice(), 0, f.len());
        proof {
            assert(f@.subrange(0, f@.len() as int) =~= f@);
        }
        fbytes.push(0);
        let file = CStr { bytes: fbytes };
        proof {
            if contains_byte(self.content(), SLASH) {
                let p = last_index_of(self.content(), SLASH);
                assert(file@ =~= self@.subrange(p + 1, self@.len() as int));
            } else {
                assert(file@ =~= self@);
            }
        }
        (d, file)
    }

    /// The terminated file name after the last separator.
    pub fn file(&self) -> (r: CStr)
        requires
            self.wf(),
        ensures
            contains_byte(self.content(), SLASH) ==> r@ == self@.subrange(
                last_index_of(self.content(), SLASH) + 1,
                self@.len() as int,
            ),
            !contains_byte(self.content(), SLASH) ==> r@ == self@,
            r.wf(),
    {
        let (_, f) = self.split_path();
        f
    }
}

} // verus!
