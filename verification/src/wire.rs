//! Little-endian layout of the fixed-width integers that payloads are made of.

use vstd::prelude::*;

verus! {

/// The two bytes of `n`, least significant first.
#[verifier::opaque]
pub open spec fn le16(n: u16) -> Seq<u8> {
    seq![(n % 256) as u8, (n / 256) as u8]
}

/// The four bytes of `n`, least significant first.
#[verifier::opaque]
pub open spec fn le32(n: u32) -> Seq<u8> {
    seq![
        (n % 256) as u8,
        (n / 256 % 256) as u8,
        (n / 65536 % 256) as u8,
        (n / 16777216) as u8,
    ]
}

/// The number that the bytes `s[at]` and `s[at + 1]` spell, least significant first.
#[verifier::opaque]
pub open spec fn from_le16(s: Seq<u8>, at: int) -> u16 {
    (s[at] + 256 * s[at + 1]) as u16
}

/// The number that the four bytes from `s[at]` on spell, least significant first.
#[verifier::opaque]
pub open spec fn from_le32(s: Seq<u8>, at: int) -> u32 {
    (s[at] + 256 * s[at + 1] + 65536 * s[at + 2] + 16777216 * s[at + 3]) as u32
}

/// The unsigned number with the bit pattern of `n` in two's complement.
pub open spec fn bits16(n: i16) -> u16 {
    if n < 0 {
        (n + 65536) as u16
    } else {
        n as u16
    }
}

/// The unsigned number with the bit pattern of `n` in two's complement.
pub open spec fn bits32(n: i32) -> u32 {
    if n < 0 {
        (n + 4294967296) as u32
    } else {
        n as u32
    }
}

/// The signed number that the bit pattern `n` stands for in two's complement.
pub open spec fn signed16(n: u16) -> i16 {
    if n >= 32768 {
        (n - 65536) as i16
    } else {
        n as i16
    }
}

/// The signed number that the bit pattern `n` stands for in two's complement.
pub open spec fn signed32(n: u32) -> i32 {
    if n >= 2147483648 {
        (n - 4294967296) as i32
    } else {
        n as i32
    }
}

/// A run of `n` zero bytes.
pub open spec fn zeros(n: nat) -> Seq<u8> {
    Seq::new(n, |i: int| 0u8)
}

/// Four digits in base 256 and the number that they spell determine each other.
proof fn lemma_base256(a: int, b: int, c: int, d: int)
    requires
        0 <= a < 256,
        0 <= b < 256,
        0 <= c < 256,
        0 <= d < 256,
    ensures
        0 <= a + 256 * b + 65536 * c + 16777216 * d < 4294967296,
        (a + 256 * b + 65536 * c + 16777216 * d) % 256 == a,
        (a + 256 * b + 65536 * c + 16777216 * d) / 256 % 256 == b,
        (a + 256 * b + 65536 * c + 16777216 * d) / 65536 % 256 == c,
        (a + 256 * b + 65536 * c + 16777216 * d) / 16777216 == d,
{
    let v = a + 256 * b + 65536 * c + 16777216 * d;
    let v1 = b + 256 * c + 65536 * d;
    let v2 = c + 256 * d;
    assert(v == a + 256 * v1);
    assert(v / 256 == v1);
    assert(v1 == b + 256 * v2);
    assert(v1 / 256 == v2);
    assert(v / 65536 == v2) by {
        assert(v == a + 256 * b + 65536 * v2);
    }
    assert(v / 16777216 == d);
}

/// A number below 2^32 is spelt by its four digits in base 256.
proof fn lemma_digits32(n: u32)
    ensures
        n == n % 256 + 256 * (n / 256 % 256) + 65536 * (n / 65536 % 256) + 16777216 * (n
            / 16777216),
        n / 16777216 < 256,
{
    let q1 = n / 256;
    let q2 = n / 65536;
    let q3 = n / 16777216;
    assert(q2 == q1 / 256);
    assert(q3 == q2 / 256);
    assert(n == n % 256 + 256 * q1);
    assert(q1 == q1 % 256 + 256 * q2);
    assert(q2 == q2 % 256 + 256 * q3);
}

/// `le16` lays out two bytes.
pub broadcast proof fn lemma_le16_len(n: u16)
    ensures
        #[trigger] le16(n).len() == 2,
{
    reveal(le16);
}

/// `le32` lays out four bytes.
pub broadcast proof fn lemma_le32_len(n: u32)
    ensures
        #[trigger] le32(n).len() == 4,
{
    reveal(le32);
}

/// Reading back what `le16` laid out gives the number that went in, wherever
/// in a buffer those two bytes stand.
pub proof fn lemma_le16_roundtrip(n: u16, before: Seq<u8>, after: Seq<u8>)
    ensures
        from_le16(before + le16(n) + after, before.len() as int) == n,
{
    reveal(le16);
    reveal(from_le16);
    let s = before + le16(n) + after;
    let at = before.len() as int;
    assert(s[at] == le16(n)[0]);
    assert(s[at + 1] == le16(n)[1]);
}

/// Reading back what `le32` laid out gives the number that went in, wherever
/// in a buffer those four bytes stand.
pub proof fn lemma_le32_roundtrip(n: u32, before: Seq<u8>, after: Seq<u8>)
    ensures
        from_le32(before + le32(n) + after, before.len() as int) == n,
{
    reveal(le32);
    reveal(from_le32);
    let s = before + le32(n) + after;
    let at = before.len() as int;
    lemma_digits32(n);
    assert(s[at] == le32(n)[0]);
    assert(s[at + 1] == le32(n)[1]);
    assert(s[at + 2] == le32(n)[2]);
    assert(s[at + 3] == le32(n)[3]);
}

/// Laying out what was read gives the bytes that were read.
pub proof fn lemma_from_le16_layout(s: Seq<u8>, at: int)
    requires
        0 <= at,
        at + 2 <= s.len(),
    ensures
        le16(from_le16(s, at)) == s.subrange(at, at + 2),
{
    reveal(le16);
    reveal(from_le16);
    assert(le16(from_le16(s, at)) =~= s.subrange(at, at + 2));
}

/// Laying out what was read gives the bytes that were read.
pub proof fn lemma_from_le32_layout(s: Seq<u8>, at: int)
    requires
        0 <= at,
        at + 4 <= s.len(),
    ensures
        le32(from_le32(s, at)) == s.subrange(at, at + 4),
{
    reveal(le32);
    reveal(from_le32);
    lemma_base256(s[at] as int, s[at + 1] as int, s[at + 2] as int, s[at + 3] as int);
    assert(le32(from_le32(s, at)) =~= s.subrange(at, at + 4));
}

/// Reading inside a slice of a buffer is reading the buffer further on.
pub proof fn lemma_from_le_subrange(s: Seq<u8>, from: int, to: int, at: int)
    requires
        0 <= from,
        0 <= at,
        from + at + 2 <= to <= s.len(),
    ensures
        from_le16(s.subrange(from, to), at) == from_le16(s, from + at),
        from + at + 4 <= to ==> from_le32(s.subrange(from, to), at) == from_le32(s, from + at),
{
    reveal(from_le16);
    reveal(from_le32);
}

/// The two's complement bit pattern and the signed reading undo each other.
pub proof fn lemma_signed_bits(a: i16, b: i32, c: u16, d: u32)
    ensures
        signed16(bits16(a)) == a,
        signed32(bits32(b)) == b,
        bits16(signed16(c)) == c,
        bits32(signed32(d)) == d,
{
}

/// Appends one byte.
pub fn put_u8(buf: &mut Vec<u8>, n: u8)
    ensures
        final(buf)@ == old(buf)@.push(n),
{
    buf.push(n);
}

/// Appends `n` in two bytes, least significant first.
pub fn put_u16(buf: &mut Vec<u8>, n: u16)
    ensures
        final(buf)@ == old(buf)@ + le16(n),
{
    buf.push((n % 256) as u8);
    buf.push((n / 256) as u8);
    proof {
        reveal(le16);
    }
    assert(buf@ =~= old(buf)@ + le16(n));
}

/// Appends `n` in four bytes, least significant first.
pub fn put_u32(buf: &mut Vec<u8>, n: u32)
    ensures
        final(buf)@ == old(buf)@ + le32(n),
{
    buf.push((n % 256) as u8);
    buf.push((n / 256 % 256) as u8);
    buf.push((n / 65536 % 256) as u8);
    buf.push((n / 16777216) as u8);
    proof {
        reveal(le32);
    }
    assert(buf@ =~= old(buf)@ + le32(n));
}

/// Appends the two's complement bit pattern of `n` in two bytes, least
/// significant first.
pub fn put_i16(buf: &mut Vec<u8>, n: i16)
    ensures
        final(buf)@ == old(buf)@ + le16(bits16(n)),
{
    put_u16(buf, to_bits16(n));
}

/// Appends the two's complement bit pattern of `n` in four bytes, least
/// significant first.
pub fn put_i32(buf: &mut Vec<u8>, n: i32)
    ensures
        final(buf)@ == old(buf)@ + le32(bits32(n)),
{
    put_u32(buf, to_bits32(n));
}

/// Appends `n` zero bytes.
pub fn put_zeros(buf: &mut Vec<u8>, n: usize)
    ensures
        final(buf)@ == old(buf)@ + zeros(n as nat),
{
    let mut i: usize = 0;
    while i < n
        invariant
            i <= n,
            buf@ == old(buf)@ + zeros(i as nat),
        decreases n - i,
    {
        buf.push(0u8);
        i = i + 1;
        assert(buf@ =~= old(buf)@ + zeros(i as nat));
    }
}

/// The two's complement bit pattern of `n`.
pub fn to_bits16(n: i16) -> (r: u16)
    ensures
        r == bits16(n),
{
    if n < 0 {
        (n as i32 + 65536) as u16
    } else {
        n as u16
    }
}

/// The two's complement bit pattern of `n`.
pub fn to_bits32(n: i32) -> (r: u32)
    ensures
        r == bits32(n),
{
    if n < 0 {
        (n as i64 + 4294967296) as u32
    } else {
        n as u32
    }
}

/// The signed number with the bit pattern `n`.
pub fn from_bits16(n: u16) -> (r: i16)
    ensures
        r == signed16(n),
{
    if n >= 32768 {
        (n as i32 - 65536) as i16
    } else {
        n as i16
    }
}

/// The signed number with the bit pattern `n`.
pub fn from_bits32(n: u32) -> (r: i32)
    ensures
        r == signed32(n),
{
    if n >= 2147483648 {
        (n as i64 - 4294967296) as i32
    } else {
        n as i32
    }
}

/// Reads two bytes at `at`, least significant first.
pub fn get_u16(buf: &[u8], at: usize) -> (n: u16)
    requires
        at + 2 <= buf@.len(),
    ensures
        n == from_le16(buf@, at as int),
{
    let lo: u16 = buf[at] as u16;
    let hi: u16 = buf[at + 1] as u16;
    proof {
        reveal(from_le16);
    }
    lo + 256 * hi
}

/// Reads four bytes at `at`, least significant first.
pub fn get_u32(buf: &[u8], at: usize) -> (n: u32)
    requires
        at + 4 <= buf@.len(),
    ensures
        n == from_le32(buf@, at as int),
{
    let b0: u32 = buf[at] as u32;
    let b1: u32 = buf[at + 1] as u32;
    let b2: u32 = buf[at + 2] as u32;
    let b3: u32 = buf[at + 3] as u32;
    proof {
        reveal(from_le32);
    }
    b0 + 256 * b1 + 65536 * b2 + 16777216 * b3
}

/// Reads a two's complement number from two bytes at `at`, least significant first.
pub fn get_i16(buf: &[u8], at: usize) -> (n: i16)
    requires
        at + 2 <= buf@.len(),
    ensures
        n == signed16(from_le16(buf@, at as int)),
{
    from_bits16(get_u16(buf, at))
}

/// Reads a two's complement number from four bytes at `at`, least significant first.
pub fn get_i32(buf: &[u8], at: usize) -> (n: i32)
    requires
        at + 4 <= buf@.len(),
    ensures
        n == signed32(from_le32(buf@, at as int)),
{
    from_bits32(get_u32(buf, at))
}

} // verus!
