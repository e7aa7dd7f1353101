//! The plain-old-data capability: a type opts in by giving its values an
//! exact byte image, and the obligation that every field (recursively)
//! does the same is discharged by the verifier at compile time — an impl
//! simply cannot state its byte image without one for each field.
//!
//! Two operations read and write through the capability: zero-construction
//! and reinterpretation between a value and its byte sequence. Every
//! reinterpretation site goes through the bounds-checked functions here,
//! never through ambient casts.

use vstd::prelude::*;

verus! {

/// The little-endian byte image of a 16-bit word.
pub open spec fn u16_le(x: u16) -> Seq<u8> {
    seq![(x & 0xff) as u8, ((x >> 8) & 0xff) as u8]
}

/// The 16-bit word read from a little-endian byte image.
pub open spec fn u16_from_le(s: Seq<u8>) -> u16
    recommends
        s.len() == 2,
{
    (s[0] as u16) | (s[1] as u16) << 8
}

/// The little-endian byte image of a 32-bit word.
pub open spec fn u32_le(x: u32) -> Seq<u8> {
    seq![
        (x & 0xff) as u8,
        ((x >> 8) & 0xff) as u8,
        ((x >> 16) & 0xff) as u8,
        ((x >> 24) & 0xff) as u8,
    ]
}

/// The 32-bit word read from a little-endian byte image.
pub open spec fn u32_from_le(s: Seq<u8>) -> u32
    recommends
        s.len() == 4,
{
    (s[0] as u32) | (s[1] as u32) << 8 | (s[2] as u32) << 16 | (s[3] as u32) << 24
}

/// The little-endian byte image of a 64-bit word.
pub open spec fn u64_le(x: u64) -> Seq<u8> {
    seq![
        (x & 0xff) as u8,
        ((x >> 8) & 0xff) as u8,
        ((x >> 16) & 0xff) as u8,
        ((x >> 24) & 0xff) as u8,
        ((x >> 32) & 0xff) as u8,
        ((x >> 40) & 0xff) as u8,
        ((x >> 48) & 0xff) as u8,
        ((x >> 56) & 0xff) as u8,
    ]
}

/// The 64-bit word read from a little-endian byte image.
pub open spec fn u64_from_le(s: Seq<u8>) -> u64
    recommends
        s.len() == 8,
{
    (s[0] as u64) | (s[1] as u64) << 8 | (s[2] as u64) << 16 | (s[3] as u64) << 24 | (
    s[4] as u64) << 32 | (s[5] as u64) << 40 | (s[6] as u64) << 48 | (s[7] as u64) << 56
}

/// Reading back the byte image of a 16-bit word yields the word, and
/// every 2-byte sequence is the image of the word read from it.
pub proof fn lemma_u16_le_round_trip(x: u16, s: Seq<u8>)
    requires
        s.len() == 2,
    ensures
        u16_from_le(u16_le(x)) == x,
        u16_le(u16_from_le(s)) == s,
{
    assert(u16_from_le(u16_le(x)) == x) by {
        assert(u16_le(x)[0] == (x & 0xff) as u8);
        assert(u16_le(x)[1] == ((x >> 8) & 0xff) as u8);
        assert((((x & 0xff) as u8) as u16) | ((((x >> 8) & 0xff) as u8) as u16) << 8 == x)
            by (bit_vector);
    };
    let b0 = s[0];
    let b1 = s[1];
    let y = u16_from_le(s);
    assert(y == (b0 as u16) | (b1 as u16) << 8);
    assert(((b0 as u16) | (b1 as u16) << 8) & 0xff == b0 as u16) by (bit_vector);
    assert((((b0 as u16) | (b1 as u16) << 8) >> 8) & 0xff == b1 as u16) by (bit_vector);
    assert(u16_le(y) =~= s);
}

/// Reading back the byte image of a 32-bit word yields the word, and
/// every 4-byte sequence is the image of the word read from it.
pub proof fn lemma_u32_le_round_trip(x: u32, s: Seq<u8>)
    requires
        s.len() == 4,
    ensures
        u32_from_le(u32_le(x)) == x,
        u32_le(u32_from_le(s)) == s,
{
    assert(u32_from_le(u32_le(x)) == x) by {
        assert(u32_le(x)[0] == (x & 0xff) as u8);
        assert(u32_le(x)[1] == ((x >> 8) & 0xff) as u8);
        assert(u32_le(x)[2] == ((x >> 16) & 0xff) as u8);
        assert(u32_le(x)[3] == ((x >> 24) & 0xff) as u8);
        assert((((x & 0xff) as u8) as u32) | ((((x >> 8) & 0xff) as u8) as u32) << 8 | ((((x
            >> 16) & 0xff) as u8) as u32) << 16 | ((((x >> 24) & 0xff) as u8) as u32) << 24
            == x) by (bit_vector);
    };
    let b0 = s[0];
    let b1 = s[1];
    let b2 = s[2];
    let b3 = s[3];
    let y = u32_from_le(s);
    assert(y == (b0 as u32) | (b1 as u32) << 8 | (b2 as u32) << 16 | (b3 as u32) << 24);
    assert({
        let v = (b0 as u32) | (b1 as u32) << 8 | (b2 as u32) << 16 | (b3 as u32) << 24;
        (v & 0xff == b0 as u32) && ((v >> 8) & 0xff == b1 as u32) && ((v >> 16) & 0xff
            == b2 as u32) && ((v >> 24) & 0xff == b3 as u32)
    }) by (bit_vector);
    assert(u32_le(y) =~= s);
}

/// Reading back the byte image of a 64-bit word yields the word, and
/// every 8-byte sequence is the image of the word read from it.
pub proof fn lemma_u64_le_round_trip(x: u64, s: Seq<u8>)
    requires
        s.len() == 8,
    ensures
        u64_from_le(u64_le(x)) == x,
        u64_le(u64_from_le(s)) == s,
{
    assert(u64_from_le(u64_le(x)) == x) by {
        assert(u64_le(x)[0] == (x & 0xff) as u8);
        assert(u64_le(x)[1] == ((x >> 8) & 0xff) as u8);
        assert(u64_le(x)[2] == ((x >> 16) & 0xff) as u8);
        assert(u64_le(x)[3] == ((x >> 24) & 0xff) as u8);
        assert(u64_le(x)[4] == ((x >> 32) & 0xff) as u8);
        assert(u64_le(x)[5] == ((x >> 40) & 0xff) as u8);
        assert(u64_le(x)[6] == ((x >> 48) & 0xff) as u8);
        assert(u64_le(x)[7] == ((x >> 56) & 0xff) as u8);
        assert((((x & 0xff) as u8) as u64) | ((((x >> 8) & 0xff) as u8) as u64) << 8 | ((((x
            >> 16) & 0xff) as u8) as u64) << 16 | ((((x >> 24) & 0xff) as u8) as u64) << 24
            | ((((x >> 32) & 0xff) as u8) as u64) << 32 | ((((x >> 40) & 0xff) as u8)
            as u64) << 40 | ((((x >> 48) & 0xff) as u8) as u64) << 48 | ((((x >> 56)
            & 0xff) as u8) as u64) << 56 == x) by (bit_vector);
    };
    let b0 = s[0];
    let b1 = s[1];
    let b2 = s[2];
    let b3 = s[3];
    let b4 = s[4];
    let b5 = s[5];
    let b6 = s[6];
    let b7 = s[7];
    let y = u64_from_le(s);
    assert(y == (b0 as u64) | (b1 as u64) << 8 | (b2 as u64) << 16 | (b3 as u64) << 24 | (
    b4 as u64) << 32 | (b5 as u64) << 40 | (b6 as u64) << 48 | (b7 as u64) << 56);
    assert({
        let v = (b0 as u64) | (b1 as u64) << 8 | (b2 as u64) << 16 | (b3 as u64) << 24 | (
        b4 as u64) << 32 | (b5 as u64) << 40 | (b6 as u64) << 48 | (b7 as u64) << 56;
        (v & 0xff == b0 as u64) && ((v >> 8) & 0xff == b1 as u64) && ((v >> 16) & 0xff
            == b2 as u64) && ((v >> 24) & 0xff == b3 as u64) && ((v >> 32) & 0xff
            == b4 as u64) && ((v >> 40) & 0xff == b5 as u64) && ((v >> 48) & 0xff
            == b6 as u64) && ((v >> 56) & 0xff == b7 as u64)
    }) by (bit_vector);
    assert(u64_le(y) =~= s);
}

/// The byte image of the zero word is all zero, at every width.
pub proof fn lemma_le_zero()
    ensures
        u16_le(0) =~= Seq::new(2, |i: int| 0u8),
        u32_le(0) =~= Seq::new(4, |i: int| 0u8),
        u64_le(0) =~= Seq::new(8, |i: int| 0u8),
{
    assert(0u16 & 0xff == 0 && (0u16 >> 8) & 0xff == 0) by (bit_vector);
    assert({
        &&& 0u32 & 0xff == 0
        &&& (0u32 >> 8) & 0xff == 0
        &&& (0u32 >> 16) & 0xff == 0
        &&& (0u32 >> 24) & 0xff == 0
    }) by (bit_vector);
    assert({
        &&& 0u64 & 0xff == 0
        &&& (0u64 >> 8) & 0xff == 0
        &&& (0u64 >> 16) & 0xff == 0
        &&& (0u64 >> 24) & 0xff == 0
        &&& (0u64 >> 32) & 0xff == 0
        &&& (0u64 >> 40) & 0xff == 0
        &&& (0u64 >> 48) & 0xff == 0
        &&& (0u64 >> 56) & 0xff == 0
    }) by (bit_vector);
}

/// Two equal concatenations whose first parts have the same length are
/// equal part by part; this is how a struct's byte image splits back into
/// its fields' images.
pub proof fn lemma_concat_split(s1: Seq<u8>, s2: Seq<u8>, t1: Seq<u8>, t2: Seq<u8>)
    requires
        s1 + s2 == t1 + t2,
        s1.len() == t1.len(),
    ensures
        s1 == t1,
        s2 == t2,
{
    assert(s1 =~= (s1 + s2).subrange(0, s1.len() as int));
    assert(t1 =~= (t1 + t2).subrange(0, t1.len() as int));
    assert(s2 =~= (s1 + s2).subrange(s1.len() as int, (s1 + s2).len() as int));
    assert(t2 =~= (t1 + t2).subrange(t1.len() as int, (t1 + t2).len() as int));
}

/// Two's-complement reinterpretation between `i8` and `u8` round-trips
/// and loses nothing.
pub proof fn lemma_i8_cast(x: u8, a: i8, b: i8)
    ensures
        (x as i8) as u8 == x,
        a as u8 == b as u8 ==> a == b,
{
    assert((x as i8) as u8 == x) by (bit_vector);
    if a as u8 == b as u8 {
        assert(a == b) by (bit_vector)
            requires
                a as u8 == b as u8,
        ;
    }
}

/// Two's-complement reinterpretation between `i16` and `u16` round-trips
/// and loses nothing.
pub proof fn lemma_i16_cast(x: u16, a: i16, b: i16)
    ensures
        (x as i16) as u16 == x,
        a as u16 == b as u16 ==> a == b,
{
    assert((x as i16) as u16 == x) by (bit_vector);
    if a as u16 == b as u16 {
        assert(a == b) by (bit_vector)
            requires
                a as u16 == b as u16,
        ;
    }
}

/// Two's-complement reinterpretation between `i32` and `u32` round-trips
/// and loses nothing.
pub proof fn lemma_i32_cast(x: u32, a: i32, b: i32)
    ensures
        (x as i32) as u32 == x,
        a as u32 == b as u32 ==> a == b,
{
    assert((x as i32) as u32 == x) by (bit_vector);
    if a as u32 == b as u32 {
        assert(a == b) by (bit_vector)
            requires
                a as u32 == b as u32,
        ;
    }
}

/// Two's-complement reinterpretation between `i64` and `u64` round-trips
/// and loses nothing.
pub proof fn lemma_i64_cast(x: u64, a: i64, b: i64)
    ensures
        (x as i64) as u64 == x,
        a as u64 == b as u64 ==> a == b,
{
    assert((x as i64) as u64 == x) by (bit_vector);
    if a as u64 == b as u64 {
        assert(a == b) by (bit_vector)
            requires
                a as u64 == b as u64,
        ;
    }
}

/// Appends the little-endian image of a 16-bit word to a byte buffer.
pub fn u16_write_le(x: u16, out: &mut Vec<u8>)
    ensures
        final(out)@ == old(out)@ + u16_le(x),
{
    out.push((x & 0xff) as u8);
    out.push(((x >> 8) & 0xff) as u8);
    assert(out@ =~= old(out)@ + u16_le(x));
}

/// Appends the little-endian image of a 32-bit word to a byte buffer.
pub fn u32_write_le(x: u32, out: &mut Vec<u8>)
    ensures
        final(out)@ == old(out)@ + u32_le(x),
{
    out.push((x & 0xff) as u8);
    out.push(((x >> 8) & 0xff) as u8);
    out.push(((x >> 16) & 0xff) as u8);
    out.push(((x >> 24) & 0xff) as u8);
    assert(out@ =~= old(out)@ + u32_le(x));
}

/// Appends the little-endian image of a 64-bit word to a byte buffer.
pub fn u64_write_le(x: u64, out: &mut Vec<u8>)
    ensures
        final(out)@ == old(out)@ + u64_le(x),
{
    out.push((x & 0xff) as u8);
    out.push(((x >> 8) & 0xff) as u8);
    out.push(((x >> 16) & 0xff) as u8);
    out.push(((x >> 24) & 0xff) as u8);
    out.push(((x >> 32) & 0xff) as u8);
    out.push(((x >> 40) & 0xff) as u8);
    out.push(((x >> 48) & 0xff) as u8);
    out.push(((x >> 56) & 0xff) as u8);
    assert(out@ =~= old(out)@ + u64_le(x));
}

/// Reads a 16-bit word from its little-endian image at `at`.
pub fn u16_read_le(buf: &[u8], at: usize) -> (x: u16)
    requires
        at + 2 <= buf@.len(),
    ensures
        x == u16_from_le(buf@.subrange(at as int, at as int + 2)),
{
    let b0 = buf[at];
    let b1 = buf[at + 1];
    let x = (b0 as u16) | (b1 as u16) << 8u16;
    proof {
        let s = buf@.subrange(at as int, at as int + 2);
        assert(s[0] == b0 && s[1] == b1);
    }
    x
}

/// Reads a 32-bit word from its little-endian image at `at`.
pub fn u32_read_le(buf: &[u8], at: usize) -> (x: u32)
    requires
        at + 4 <= buf@.len(),
    ensures
        x == u32_from_le(buf@.subrange(at as int, at as int + 4)),
{
    let b0 = buf[at];
    let b1 = buf[at + 1];
    let b2 = buf[at + 2];
    let b3 = buf[at + 3];
    let x = (b0 as u32) | (b1 as u32) << 8u32 | (b2 as u32) << 16u32 | (b3 as u32) << 24u32;
    proof {
        let s = buf@.subrange(at as int, at as int + 4);
        assert(s[0] == b0 && s[1] == b1 && s[2] == b2 && s[3] == b3);
    }
    x
}

/// Reads a 64-bit word from its little-endian image at `at`.
pub fn u64_read_le(buf: &[u8], at: usize) -> (x: u64)
    requires
        at + 8 <= buf@.len(),
    ensures
        x == u64_from_le(buf@.subrange(at as int, at as int + 8)),
{
    let b0 = buf[at];
    let b1 = buf[at + 1];
    let b2 = buf[at + 2];
    let b3 = buf[at + 3];
    let b4 = buf[at + 4];
    let b5 = buf[at + 5];
    let b6 = buf[at + 6];
    let b7 = buf[at + 7];
    let x = (b0 as u64) | (b1 as u64) << 8u64 | (b2 as u64) << 16u64 | (b3 as u64) << 24u64 | (
    b4 as u64) << 32u64 | (b5 as u64) << 40u64 | (b6 as u64) << 48u64 | (b7 as u64) << 56u64;
    proof {
        let s = buf@.subrange(at as int, at as int + 8);
        assert(s[0] == b0 && s[1] == b1 && s[2] == b2 && s[3] == b3);
        assert(s[4] == b4 && s[5] == b5 && s[6] == b6 && s[7] == b7);
    }
    x
}

/// The plain-old-data capability: every value of the type has an exact
/// byte image of a fixed size, the image determines the value, and an
/// all-zero image is a valid value — so zero-construction and byte
/// reinterpretation are sound.
///
/// An impl must give a byte image to each of its fields in turn, so the
/// capability propagates recursively down to the built-in holders; a type
/// with a field that has no image cannot discharge these obligations, and
/// the build fails. No runtime cost or branch is involved.
pub trait Pod: Sized + Copy {
    /// The byte image of this value, in the kernel's layout for the type.
    spec fn pod_bytes(self) -> Seq<u8>;

    /// The size of the byte image, the same for every value.
    spec fn pod_size() -> nat;

    /// The image of every value has exactly `pod_size` bytes.
    proof fn lemma_pod_size(self)
        ensures
            self.pod_bytes().len() == Self::pod_size(),
    ;

    /// The byte image determines the value: reinterpretation loses
    /// nothing.
    proof fn lemma_pod_injective(a: Self, b: Self)
        requires
            a.pod_bytes() == b.pod_bytes(),
        ensures
            a == b,
    ;

    /// The size of the byte image, as a runtime value.
    fn pod_size_exec() -> (n: usize)
        ensures
            n == Self::pod_size(),
    ;

    /// Zero-construction: the value whose byte image is all zero.
    fn pod_zeroed() -> (r: Self)
        ensures
            r.pod_bytes() == Seq::new(Self::pod_size(), |i: int| 0u8),
    ;

    /// Appends this value's byte image to a buffer.
    fn pod_write(&self, out: &mut Vec<u8>)
        ensures
            final(out)@ == old(out)@ + self.pod_bytes(),
    ;

    /// Reads the value whose byte image sits at `at` in the buffer.
    fn pod_read(buf: &[u8], at: usize) -> (r: Self)
        requires
            at + Self::pod_size() <= buf@.len(),
        ensures
            r.pod_bytes() == buf@.subrange(at as int, at as int + Self::pod_size() as int),
    ;
}

/// Any two values with the all-zero byte image are the same value: a
/// zero-filled buffer of the type's size, reinterpreted, is exactly the
/// zero-constructed value.
pub proof fn lemma_zero_image_unique<T: Pod>(a: T, b: T)
    requires
        a.pod_bytes() == Seq::new(T::pod_size(), |i: int| 0u8),
        b.pod_bytes() == Seq::new(T::pod_size(), |i: int| 0u8),
    ensures
        a == b,
{
    T::lemma_pod_injective(a, b);
}

impl Pod for u8 {
    open spec fn pod_bytes(self) -> Seq<u8> {
        seq![self]
    }

    open spec fn pod_size() -> nat {
        1
    }

    proof fn lemma_pod_size(self) {
    }

    proof fn lemma_pod_injective(a: Self, b: Self) {
        assert(seq![a][0] == a);
        assert(seq![b][0] == b);
        assert(a.pod_bytes()[0] == b.pod_bytes()[0]);
    }

    fn pod_size_exec() -> usize {
        1
    }

    fn pod_zeroed() -> Self {
        assert(seq![0u8] =~= Seq::new(1, |i: int| 0u8));
        0
    }

    fn pod_write(&self, out: &mut Vec<u8>) {
        out.push(*self);
        assert(out@ =~= old(out)@ + seq![*self]);
    }

    fn pod_read(buf: &[u8], at: usize) -> Self {
        let b = buf[at];
        proof {
            assert(buf@.subrange(at as int, at as int + 1)[0] == b);
            assert(seq![b] =~= buf@.subrange(at as int, at as int + 1));
        }
        b
    }
}

impl Pod for i8 {
    open spec fn pod_bytes(self) -> Seq<u8> {
        seq![self as u8]
    }

    open spec fn pod_size() -> nat {
        1
    }

    proof fn lemma_pod_size(self) {
    }

    proof fn lemma_pod_injective(a: Self, b: Self) {
        assert(seq![a as u8][0] == a as u8);
        assert(seq![b as u8][0] == b as u8);
        assert(a.pod_bytes()[0] == b.pod_bytes()[0]);
        assert(a as u8 == b as u8);
        lemma_i8_cast(0, a, b);
    }

    fn pod_size_exec() -> usize {
        1
    }

    fn pod_zeroed() -> Self {
        proof {
            lemma_i8_cast(0, 0, 0);
            assert(seq![0i8 as u8] =~= Seq::new(1, |i: int| 0u8));
        }
        0
    }

    fn pod_write(&self, out: &mut Vec<u8>) {
        out.push(*self as u8);
        assert(out@ =~= old(out)@ + self.pod_bytes());
    }

    fn pod_read(buf: &[u8], at: usize) -> Self {
        let b = buf[at];
        let r = b as i8;
        proof {
            lemma_i8_cast(b, r, r);
            assert(buf@.subrange(at as int, at as int + 1)[0] == b);
            assert(r.pod_bytes() =~= buf@.subrange(at as int, at as int + 1));
        }
        r
    }
}

impl Pod for u16 {
    open spec fn pod_bytes(self) -> Seq<u8> {
        u16_le(self)
    }

    open spec fn pod_size() -> nat {
        2
    }

    proof fn lemma_pod_size(self) {
    }

    proof fn lemma_pod_injective(a: Self, b: Self) {
        lemma_u16_le_round_trip(a, u16_le(b));
        lemma_u16_le_round_trip(b, u16_le(a));
    }

    fn pod_size_exec() -> usize {
        2
    }

    fn pod_zeroed() -> Self {
        proof {
            lemma_le_zero();
        }
        0
    }

    fn pod_write(&self, out: &mut Vec<u8>) {
        u16_write_le(*self, out);
    }

    fn pod_read(buf: &[u8], at: usize) -> Self {
        let x = u16_read_le(buf, at);
        proof {
            lemma_u16_le_round_trip(x, buf@.subrange(at as int, at as int + 2));
        }
        x
    }
}

impl Pod for i16 {
    open spec fn pod_bytes(self) -> Seq<u8> {
        u16_le(self as u16)
    }

    open spec fn pod_size() -> nat {
        2
    }

    proof fn lemma_pod_size(self) {
    }

    proof fn lemma_pod_injective(a: Self, b: Self) {
        lemma_u16_le_round_trip(a as u16, u16_le(b as u16));
        lemma_u16_le_round_trip(b as u16, u16_le(a as u16));
        lemma_i16_cast(0, a, b);
    }

    fn pod_size_exec() -> usize {
        2
    }

    fn pod_zeroed() -> Self {
        proof {
            lemma_le_zero();
            lemma_i16_cast(0, 0, 0);
            assert(0i16 as u16 == 0u16) by (bit_vector);
        }
        0
    }

    fn pod_write(&self, out: &mut Vec<u8>) {
        u16_write_le(*self as u16, out);
    }

    fn pod_read(buf: &[u8], at: usize) -> Self {
        let x = u16_read_le(buf, at);
        let r = x as i16;
        proof {
            lemma_i16_cast(x, r, r);
            lemma_u16_le_round_trip(x, buf@.subrange(at as int, at as int + 2));
        }
        r
    }
}

impl Pod for u32 {
    open spec fn pod_bytes(self) -> Seq<u8> {
        u32_le(self)
    }

    open spec fn pod_size() -> nat {
        4
    }

    proof fn lemma_pod_size(self) {
    }

    proof fn lemma_pod_injective(a: Self, b: Self) {
        lemma_u32_le_round_trip(a, u32_le(b));
        lemma_u32_le_round_trip(b, u32_le(a));
    }

    fn pod_size_exec() -> usize {
        4
    }

    fn pod_zeroed() -> Self {
        proof {
            lemma_le_zero();
        }
        0
    }

    fn pod_write(&self, out: &mut Vec<u8>) {
        u32_write_le(*self, out);
    }

    fn pod_read(buf: &[u8], at: usize) -> Self {
        let x = u32_read_le(buf, at);
        proof {
            lemma_u32_le_round_trip(x, buf@.subrange(at as int, at as int + 4));
        }
        x
    }
}

impl Pod for i32 {
    open spec fn pod_bytes(self) -> Seq<u8> {
        u32_le(self as u32)
    }

    open spec fn pod_size() -> nat {
        4
    }

    proof fn lemma_pod_size(self) {
    }

    proof fn lemma_pod_injective(a: Self, b: Self) {
        lemma_u32_le_round_trip(a as u32, u32_le(b as u32));
        lemma_u32_le_round_trip(b as u32, u32_le(a as u32));
        lemma_i32_cast(0, a, b);
    }

    fn pod_size_exec() -> usize {
        4
    }

    fn pod_zeroed() -> Self {
        proof {
            lemma_le_zero();
            lemma_i32_cast(0, 0, 0);
            assert(0i32 as u32 == 0u32) by (bit_vector);
        }
        0
    }

    fn pod_write(&self, out: &mut Vec<u8>) {
        u32_write_le(*self as u32, out);
    }

    fn pod_read(buf: &[u8], at: usize) -> Self {
        let x = u32_read_le(buf, at);
        let r = x as i32;
        proof {
            lemma_i32_cast(x, r, r);
            lemma_u32_le_round_trip(x, buf@.subrange(at as int, at as int + 4));
        }
        r
    }
}

impl Pod for u64 {
    open spec fn pod_bytes(self) -> Seq<u8> {
        u64_le(self)
    }

    open spec fn pod_size() -> nat {
        8
    }

    proof fn lemma_pod_size(self) {
    }

    proof fn lemma_pod_injective(a: Self, b: Self) {
        lemma_u64_le_round_trip(a, u64_le(b));
        lemma_u64_le_round_trip(b, u64_le(a));
    }

    fn pod_size_exec() -> usize {
        8
    }

    fn pod_zeroed() -> Self {
        proof {
            lemma_le_zero();
        }
        0
    }

    fn pod_write(&self, out: &mut Vec<u8>) {
        u64_write_le(*self, out);
    }

    fn pod_read(buf: &[u8], at: usize) -> Self {
        let x = u64_read_le(buf, at);
        proof {
            lemma_u64_le_round_trip(x, buf@.subrange(at as int, at as int + 8));
        }
        x
    }
}

impl Pod for i64 {
    open spec fn pod_bytes(self) -> Seq<u8> {
        u64_le(self as u64)
    }

    open spec fn pod_size() -> nat {
        8
    }

    proof fn lemma_pod_size(self) {
    }

    proof fn lemma_pod_injective(a: Self, b: Self) {
        lemma_u64_le_round_trip(a as u64, u64_le(b as u64));
        lemma_u64_le_round_trip(b as u64, u64_le(a as u64));
        lemma_i64_cast(0, a, b);
    }

    fn pod_size_exec() -> usize {
        8
    }

    fn pod_zeroed() -> Self {
        proof {
            lemma_le_zero();
            lemma_i64_cast(0, 0, 0);
            assert(0i64 as u64 == 0u64) by (bit_vector);
        }
        0
    }

    fn pod_write(&self, out: &mut Vec<u8>) {
        u64_write_le(*self as u64, out);
    }

    fn pod_read(buf: &[u8], at: usize) -> Self {
        let x = u64_read_le(buf, at);
        let r = x as i64;
        proof {
            lemma_i64_cast(x, r, r);
            lemma_u64_le_round_trip(x, buf@.subrange(at as int, at as int + 8));
        }
        r
    }
}

} // verus!
