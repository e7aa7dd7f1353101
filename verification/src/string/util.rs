//! Byte-search primitives and small buffer helpers shared by the string
//! types.

use vstd::prelude::*;

verus! {

/// Relies on `memchr::memchr`: returns the index of the first occurrence
/// of `needle` in `haystack`, or `None` if the byte does not occur; a
/// returned index is less than the haystack's length.
#[verifier::external_body]
pub fn memchr_first(needle: u8, haystack: &[u8]) -> (r: Option<usize>)
    ensures
        r matches Some(i) ==> i < haystack@.len() && haystack@[i as int] == needle
            && forall|j: int| 0 <= j < i ==> haystack@[j] != needle,
        r is None ==> forall|j: int| 0 <= j < haystack@.len() ==> haystack@[j] != needle,
{
    memchr::memchr(needle, haystack)
}

/// Relies on `memchr::memrchr`: returns the index of the last occurrence
/// of `needle` in `haystack`, or `None` if the byte does not occur; a
/// returned index is less than the haystack's length.
#[verifier::external_body]
pub fn memchr_last(needle: u8, haystack: &[u8]) -> (r: Option<usize>)
    ensures
        r matches Some(i) ==> i < haystack@.len() && haystack@[i as int] == needle
            && forall|j: int| i < j < haystack@.len() ==> haystack@[j] != needle,
        r is None ==> forall|j: int| 0 <= j < haystack@.len() ==> haystack@[j] != needle,
{
    memchr::memrchr(needle, haystack)
}

/// Copies the bytes of `v` between `from` and `to` into a fresh buffer.
pub fn bytes_between(v: &[u8], from: usize, to: usize) -> (r: Vec<u8>)
    requires
        from <= to <= v@.len(),
    ensures
        r@ == v@.subrange(from as int, to as int),
{
    let mut out: Vec<u8> = Vec::new();
    let mut i = from;
    while i < to
        invariant
            from <= i <= to <= v@.len(),
            out@ == v@.subrange(from as int, i as int),
        decreases to - i,
    {
        out.push(v[i]);
        proof {
            assert(out@ =~= v@.subrange(from as int, i + 1 as int));
        }
        i = i + 1;
    }
    out
}

/// Whether `needle` occurs in `s`.
pub open spec fn contains_byte(s: Seq<u8>, needle: u8) -> bool {
    exists|i: int| 0 <= i < s.len() && s[i] == needle
}

/// The index of the first occurrence of `needle` in `s`.
pub open spec fn first_index_of(s: Seq<u8>, needle: u8) -> int {
    choose|i: int|
        0 <= i < s.len() && s[i] == needle && (forall|j: int| 0 <= j < i ==> s[j] != needle)
}

/// An index that is an occurrence of `needle` with none before it is the
/// first occurrence.
pub proof fn lemma_first_index_of(s: Seq<u8>, needle: u8, i: int)
    requires
        0 <= i < s.len(),
        s[i] == needle,
        forall|j: int| 0 <= j < i ==> s[j] != needle,
    ensures
        contains_byte(s, needle),
        first_index_of(s, needle) == i,
{
    assert(contains_byte(s, needle));
    let k = first_index_of(s, needle);
    assert(0 <= k < s.len() && s[k] == needle && (forall|j: int| 0 <= j < k ==> s[j] != needle));
    if k < i {
        assert(s[k] != needle);
        assert(false);
    }
    if i < k {
        assert(s[i] != needle);
        assert(false);
    }
}

/// The index of the last occurrence of `needle` in `s`.
pub open spec fn last_index_of(s: Seq<u8>, needle: u8) -> int {
    choose|i: int|
        0 <= i < s.len() && s[i] == needle && (forall|j: int|
            i < j < s.len() ==> s[j] != needle)
}

/// An index that is an occurrence of `needle` with none after it is the
/// last occurrence.
pub proof fn lemma_last_index_of(s: Seq<u8>, needle: u8, i: int)
    requires
        0 <= i < s.len(),
        s[i] == needle,
        forall|j: int| i < j < s.len() ==> s[j] != needle,
    ensures
        contains_byte(s, needle),
        last_index_of(s, needle) == i,
{
    assert(contains_byte(s, needle));
    let k = last_index_of(s, needle);
    assert(0 <= k < s.len() && s[k] == needle && (forall|j: int|
        k < j < s.len() ==> s[j] != needle));
    if k < i {
        assert(s[i] != needle);
        assert(false);
    }
    if i < k {
        assert(s[k] != needle);
        assert(false);
    }
}

/// How many bytes a character beginning with `b` occupies, by the
/// accepted lead-byte ranges; zero for a byte that cannot begin one
/// (continuation bytes, the overlong leads, and everything past the
/// last plane).
pub open spec fn utf8_char_len(b: u8) -> int {
    if b < 0x80 {
        1
    } else if b < 0xC2 {
        0
    } else if b < 0xE0 {
        2
    } else if b < 0xF0 {
        3
    } else if b < 0xF5 {
        4
    } else {
        0
    }
}

/// Whether `b` is a continuation byte.
pub open spec fn is_cont(b: u8) -> bool {
    0x80 <= b < 0xC0
}

/// The accepted second byte of a three-byte character led by `b0`:
/// narrowed after the lead bytes whose full continuation range would be
/// overlong or fall among the surrogates.
pub open spec fn utf8_mid3_ok(b0: u8, b1: u8) -> bool {
    if b0 == 0xE0 {
        0xA0 <= b1 < 0xC0
    } else if b0 == 0xED {
        0x80 <= b1 < 0xA0
    } else if 0xE1 <= b0 <= 0xEC {
        is_cont(b1)
    } else {
        false
    }
}

/// The accepted second byte of a four-byte character led by `b0`:
/// narrowed at both ends of the lead range to stay within the planes.
pub open spec fn utf8_mid4_ok(b0: u8, b1: u8) -> bool {
    if b0 == 0xF0 {
        0x90 <= b1 < 0xC0
    } else if b0 == 0xF4 {
        0x80 <= b1 < 0x90
    } else if 0xF1 <= b0 <= 0xF3 {
        is_cont(b1)
    } else {
        false
    }
}

/// Whether a well-formed character starts at position `i` of `s`.
pub open spec fn valid_utf8_char_at(s: Seq<u8>, i: int) -> bool
    recommends
        0 <= i < s.len(),
{
    let l = utf8_char_len(s[i]);
    &&& l > 0
    &&& i + l <= s.len()
    &&& (l == 2 ==> is_cont(s[i + 1]))
    &&& (l == 3 ==> utf8_mid3_ok(s[i], s[i + 1]) && is_cont(s[i + 2]))
    &&& (l == 4 ==> utf8_mid4_ok(s[i], s[i + 1]) && is_cont(s[i + 2]) && is_cont(s[i + 3]))
}

/// The length of the longest prefix of `s` made of consecutive
/// well-formed characters.
pub open spec fn utf8_prefix_len(s: Seq<u8>) -> int
    decreases s.len(),
{
    if s.len() == 0 {
        0
    } else if valid_utf8_char_at(s, 0) {
        let l = utf8_char_len(s[0]);
        l + utf8_prefix_len(s.skip(l))
    } else {
        0
    }
}

/// How many bytes a character beginning with `b` occupies, at runtime.
pub fn char_len(b: u8) -> (r: u8)
    ensures
        r == utf8_char_len(b),
{
    if b < 0x80 {
        1
    } else if b < 0xC2 {
        0
    } else if b < 0xE0 {
        2
    } else if b < 0xF0 {
        3
    } else if b < 0xF5 {
        4
    } else {
        0
    }
}

/// The length of the longest initial sequence of `b` that is made of
/// well-formed characters; the bytes up to that length can be interpreted
/// as text, the byte after it cannot begin a character there.
pub fn longest_sequence(b: &[u8]) -> (n: usize)
    ensures
        n == utf8_prefix_len(b@),
        n <= b@.len(),
{
    let len = b.len();
    let mut idx: usize = 0;
    proof {
        assert(b@.skip(0) =~= b@);
    }
    loop
        invariant
            idx <= len,
            len == b@.len(),
            utf8_prefix_len(b@) == idx + utf8_prefix_len(b@.skip(idx as int)),
        decreases len - idx,
    {
        let ghost rest = b@.skip(idx as int);
        if idx >= len {
            proof {
                assert(rest =~= Seq::<u8>::empty());
            }
            return idx;
        }
        let b0 = b[idx];
        let l = char_len(b0) as usize;
        let ok: bool = if l == 0 || l > len - idx {
            false
        } else if l == 1 {
            true
        } else if l == 2 {
            let b1 = b[idx + 1];
            0x80 <= b1 && b1 < 0xC0
        } else if l == 3 {
            let b1 = b[idx + 1];
            let b2 = b[idx + 2];
            let mid = if b0 == 0xE0 {
                0xA0 <= b1 && b1 < 0xC0
            } else if b0 == 0xED {
                0x80 <= b1 && b1 < 0xA0
            } else if 0xE1 <= b0 && b0 <= 0xEC {
                0x80 <= b1 && b1 < 0xC0
            } else {
                false
            };
            mid && 0x80 <= b2 && b2 < 0xC0
        } else {
            let b1 = b[idx + 1];
            let b2 = b[idx + 2];
            let b3 = b[idx + 3];
            let mid = if b0 == 0xF0 {
                0x90 <= b1 && b1 < 0xC0
            } else if b0 == 0xF4 {
                0x80 <= b1 && b1 < 0x90
            } else if 0xF1 <= b0 && b0 <= 0xF3 {
                0x80 <= b1 && b1 < 0xC0
            } else {
                false
            };
            mid && 0x80 <= b2 && b2 < 0xC0 && 0x80 <= b3 && b3 < 0xC0
        };
        proof {
            assert(rest[0] == b@[idx as int]);
            assert(ok == valid_utf8_char_at(rest, 0));
        }
        if ok {
            proof {
                assert(rest.skip(l as int) =~= b@.skip(idx + l as int));
            }
            idx = idx + l;
        } else {
            return idx;
        }
    }
}

/// The lowercase hexadecimal digit for a value below 16.
pub open spec fn spec_hex_digit(d: int) -> u8
    recommends
        0 <= d < 16,
{
    if d < 10 {
        (48 + d) as u8
    } else {
        (87 + d) as u8
    }
}

/// The lowercase hexadecimal digits of `v`, most significant first, with
/// no leading zeros.
pub open spec fn spec_hex(v: int) -> Seq<u8>
    recommends
        v >= 0,
    decreases v,
{
    if v < 16 {
        seq![spec_hex_digit(v)]
    } else {
        spec_hex(v / 16) + seq![spec_hex_digit(v % 16)]
    }
}

/// The escaped form of one character: a backslash doubles, the requested
/// quotes gain a backslash, printable characters stand for themselves,
/// and everything else becomes a braced lowercase-hex escape.
pub open spec fn spec_escape_char(c: char, esc_double: bool, esc_single: bool) -> Seq<u8> {
    let v = c as u32;
    if c == '\\' {
        seq![92u8, 92u8]
    } else if esc_double && c == '"' {
        seq![92u8, 34u8]
    } else if esc_single && c == '\'' {
        seq![92u8, 39u8]
    } else if 31 < v < 127 {
        seq![v as u8]
    } else {
        seq![92u8, 117u8, 123u8] + spec_hex(v as int) + seq![125u8]
    }
}

/// The escaped form of a character sequence, with double quotes escaped
/// and single quotes kept.
pub open spec fn spec_escape_str(s: Seq<char>) -> Seq<u8>
    decreases s.len(),
{
    if s.len() == 0 {
        Seq::empty()
    } else {
        spec_escape_char(s[0], true, false) + spec_escape_str(s.drop_first())
    }
}

/// Escaping a sequence extended by one character appends that character's
/// escape.
pub proof fn lemma_escape_str_push(s: Seq<char>, c: char)
    ensures
        spec_escape_str(s.push(c)) == spec_escape_str(s) + spec_escape_char(c, true, false),
    decreases s.len(),
{
    if s.len() == 0 {
        assert(s.push(c).drop_first() =~= Seq::<char>::empty());
        assert(s.push(c)[0] == c);
        assert(spec_escape_str(Seq::<char>::empty()) == Seq::<u8>::empty());
        assert(spec_escape_str(s.push(c)) =~= spec_escape_str(s) + spec_escape_char(
            c,
            true,
            false,
        ));
    } else {
        assert(s.push(c).drop_first() =~= s.drop_first().push(c));
        lemma_escape_str_push(s.drop_first(), c);
        assert(spec_escape_str(s.push(c)) =~= spec_escape_str(s) + spec_escape_char(
            c,
            true,
            false,
        ));
    }
}

/// Appends the lowercase hexadecimal digits of `v`, most significant
/// first, with no leading zeros.
pub fn hex_lower(v: u32, out: &mut Vec<u8>)
    ensures
        final(out)@ == old(out)@ + spec_hex(v as int),
    decreases v,
{
    if v < 16 {
        let d = v as u8;
        let digit: u8 = if d < 10 {
            48 + d
        } else {
            87 + d
        };
        out.push(digit);
        assert(out@ =~= old(out)@ + spec_hex(v as int));
    } else {
        hex_lower(v / 16, out);
        let d = (v % 16) as u8;
        let digit: u8 = if d < 10 {
            48 + d
        } else {
            87 + d
        };
        out.push(digit);
        assert(out@ =~= old(out)@ + spec_hex(v as int));
    }
}

/// Appends the escaped form of one character.
pub fn debug_char_no_quotes(c: char, out: &mut Vec<u8>, esc_double: bool, esc_single: bool)
    ensures
        final(out)@ == old(out)@ + spec_escape_char(c, esc_double, esc_single),
{
    let v = c as u32;
    if c == '\\' {
        out.push(92);
        out.push(92);
        assert(out@ =~= old(out)@ + spec_escape_char(c, esc_double, esc_single));
    } else if esc_double && c == '"' {
        out.push(92);
        out.push(34);
        assert(out@ =~= old(out)@ + spec_escape_char(c, esc_double, esc_single));
    } else if esc_single && c == '\'' {
        out.push(92);
        out.push(39);
        assert(out@ =~= old(out)@ + spec_escape_char(c, esc_double, esc_single));
    } else if 31 < v && v < 127 {
        out.push(v as u8);
        assert(out@ =~= old(out)@ + spec_escape_char(c, esc_double, esc_single));
    } else {
        out.push(92);
        out.push(117);
        out.push(123);
        hex_lower(v, out);
        out.push(125);
        assert(out@ =~= old(out)@ + spec_escape_char(c, esc_double, esc_single));
    }
}

/// The escaped form of a character sequence, double quotes escaped.
pub fn debug_str_no_quotes(s: &Vec<char>) -> (r: Vec<u8>)
    ensures
        r@ == spec_escape_str(s@),
{
    let mut out: Vec<u8> = Vec::new();
    let n = s.len();
    let mut i: usize = 0;
    proof {
        assert(s@.take(0) =~= Seq::<char>::empty());
    }
    while i < n
        invariant
            i <= n,
            n == s@.len(),
            out@ == spec_escape_str(s@.take(i as int)),
        decreases n - i,
    {
        let c = s[i];
        debug_char_no_quotes(c, &mut out, true, false);
        proof {
            assert(s@.take(i + 1 as int) =~= s@.take(i as int).push(c));
            lemma_escape_str_push(s@.take(i as int), c);
        }
        i = i + 1;
    }
    proof {
        assert(s@.take(n as int) =~= s@);
    }
    out
}

} // verus!
