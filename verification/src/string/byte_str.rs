//! A borrowed-from-anywhere byte sequence that can be interpreted as a
//! string.

use vstd::prelude::*;

verus! {

/// A byte sequence interpreted as a string.
#[derive(Clone, Debug, PartialEq, Eq)]
pub struct ByteStr {
    bytes: Vec<u8>,
}

impl View for ByteStr {
    type V = Seq<u8>;

    closed spec fn view(&self) -> Seq<u8> {
        self.bytes@
    }
}

/// Whether a byte is one the trim operation removes: a space or a tab.
pub open spec fn is_blank(b: u8) -> bool {
    b == 32 || b == 9
}

/// The length of the longest all-blank prefix of `s`.
pub open spec fn blank_prefix_len(s: Seq<u8>) -> int
    decreases s.len(),
{
    if s.len() == 0 {
        0
    } else if is_blank(s[0]) {
        1 + blank_prefix_len(s.drop_first())
    } else {
        0
    }
}

/// The position just after the last non-blank byte of `s`; zero when `s`
/// is all blank.
pub open spec fn blank_suffix_start(s: Seq<u8>) -> int
    decreases s.len(),
{
    if s.len() == 0 {
        0
    } else if is_blank(s[s.len() - 1]) {
        blank_suffix_start(s.drop_last())
    } else {
        s.len() as int
    }
}

/// The blank prefix is never longer than the sequence, and it is exactly
/// the position of the first non-blank byte.
pub proof fn lemma_blank_prefix(s: Seq<u8>, i: int)
    requires
        0 <= i <= s.len(),
        forall|j: int| 0 <= j < i ==> is_blank(s[j]),
        i < s.len() ==> !is_blank(s[i]),
    ensures
        blank_prefix_len(s) == i,
    decreases s.len(),
{
    if s.len() == 0 {
    } else if is_blank(s[0]) {
        assert(i >= 1);
        let t = s.drop_first();
        assert(forall|j: int| 0 <= j < i - 1 ==> t[j] == s[j + 1] && is_blank(s[j + 1]));
        lemma_blank_prefix(t, i - 1);
    } else {
        assert(i == 0);
    }
}

/// The blank suffix start is exactly the position after the last
/// non-blank byte.
pub proof fn lemma_blank_suffix(s: Seq<u8>, i: int)
    requires
        0 <= i <= s.len(),
        forall|j: int| i <= j < s.len() ==> is_blank(s[j]),
        i > 0 ==> !is_blank(s[i - 1]),
    ensures
        blank_suffix_start(s) == i,
    decreases s.len(),
{
    if s.len() == 0 {
    } else if is_blank(s[s.len() - 1]) {
        assert(i < s.len());
        let t = s.drop_last();
        assert(forall|j: int| i <= j < t.len() ==> t[j] == s[j] && is_blank(s[j]));
        lemma_blank_suffix(t, i);
    } else {
        assert(i == s.len());
    }
}

/// When everything from position `i` on is blank, the blank suffix starts
/// at or before `i`.
pub proof fn lemma_blank_suffix_bound(s: Seq<u8>, i: int)
    requires
        0 <= i <= s.len(),
        forall|j: int| i <= j < s.len() ==> is_blank(s[j]),
    ensures
        blank_suffix_start(s) <= i,
    decreases s.len(),
{
    if s.len() == 0 {
    } else if is_blank(s[s.len() - 1]) {
        let t = s.drop_last();
        let k = if i <= t.len() {
            i
        } else {
            t.len() as int
        };
        assert(forall|j: int| k <= j < t.len() ==> t[j] == s[j] && is_blank(s[j]));
        lemma_blank_suffix_bound(t, k);
    } else {
        assert(i == s.len());
    }
}

impl ByteStr {
    /// Wraps a byte buffer as a byte string.
    pub fn from_vec(bytes: Vec<u8>) -> (r: ByteStr)
        ensures
            r@ == bytes@,
    {
        ByteStr { bytes }
    }

    /// The underlying bytes.
    pub fn as_bytes(&self) -> (r: &Vec<u8>)
        ensures
            r@ == self@,
    {
        &self.bytes
    }

    /// The number of bytes.
    pub fn len(&self) -> (n: usize)
        ensures
            n == self@.len(),
    {
        self.bytes.len()
    }

    /// Returns the byte string with spaces and tabs removed from its
    /// start and end: the bytes from the first non-blank one up to and
    /// including the last non-blank one.
    pub fn trim(&self) -> (r: ByteStr)
        ensures
            ({
                let a = blank_prefix_len(self@);
                let b = if blank_suffix_start(self@) >= a {
                    blank_suffix_start(self@)
                } else {
                    a
                };
                r@ == self@.subrange(a, b)
            }),
    {
        let n = self.bytes.len();
        let mut start: usize = 0;
        while start < n && (self.bytes[start] == 32 || self.bytes[start] == 9)
            invariant
                0 <= start <= n,
                n == self@.len(),
                forall|j: int| 0 <= j < start ==> is_blank(self@[j]),
            decreases n - start,
        {
            start = start + 1;
        }
        proof {
            lemma_blank_prefix(self@, start as int);
        }
        let mut end: usize = n;
        while end > start && (self.bytes[end - 1] == 32 || self.bytes[end - 1] == 9)
            invariant
                start <= end <= n,
                n == self@.len(),
                forall|j: int| end <= j < n ==> is_blank(self@[j]),
            decreases end,
        {
            end = end - 1;
        }
        proof {
            if end > start {
                lemma_blank_suffix(self@, end as int);
            } else {
                lemma_blank_suffix_bound(self@, end as int);
            }
        }
        let out = crate::string::util::bytes_between(self.bytes.as_slice(), start, end);
        ByteStr { bytes: out }
    }

    /// Returns whether the string holds exactly the given bytes.
    pub fn eq_bytes(&self, other: &[u8]) -> (r: bool)
        ensures
            r == (self@ == other@),
    {
        let n = self.bytes.len();
        if other.len() != n {
            return false;
        }
        let mut i: usize = 0;
        while i < n
            invariant
                0 <= i <= n,
                n == self@.len(),
                n == other@.len(),
                forall|j: int| 0 <= j < i ==> self@[j] == other@[j],
            decreases n - i,
        {
            if self.bytes[i] != other[i] {
                return false;
            }
            i = i + 1;
        }
        proof {
            assert(self@ =~= other@);
        }
        true
    }

    /// Returns whether the string starts with the given byte sequence.
    pub fn starts_with(&self, arg: &[u8]) -> (r: bool)
        ensures
            r == (self@.len() >= arg@.len() && self@.subrange(0, arg@.len() as int) == arg@),
    {
        let m = arg.len();
        if self.bytes.len() < m {
            return false;
        }
        let mut i: usize = 0;
        while i < m
            invariant
                0 <= i <= m,
                m == arg@.len(),
                m <= self@.len(),
                forall|j: int| 0 <= j < i ==> self@[j] == arg@[j],
            decreases m - i,
        {
            if self.bytes[i] != arg[i] {
                assert(self@.subrange(0, m as int)[i as int] != arg@[i as int]);
                return false;
            }
            i = i + 1;
        }
        proof {
            assert(self@.subrange(0, m as int) =~= arg@);
        }
        true
    }
}

} // verus!
