//! Byte-order encodings of fixed-width unsigned integers, and the laws that
//! relate encoding and decoding.
use vstd::prelude::*;

verus! {

/// Big-endian bytes of a `u16`.
pub open spec fn u16_be_bytes(v: u16) -> Seq<u8> {
    seq![(v >> 8) as u8, v as u8]
}

/// Little-endian bytes of a `u16`.
pub open spec fn u16_le_bytes(v: u16) -> Seq<u8> {
    seq![v as u8, (v >> 8) as u8]
}

/// The `u16` whose big-endian bytes start `s`.
pub open spec fn u16_from_be(s: Seq<u8>) -> u16 {
    ((s[0] as u16) << 8) | (s[1] as u16)
}

/// The `u16` whose little-endian bytes start `s`.
pub open spec fn u16_from_le(s: Seq<u8>) -> u16 {
    (s[0] as u16) | ((s[1] as u16) << 8)
}

/// Big-endian bytes of a `u32`.
pub open spec fn u32_be_bytes(v: u32) -> Seq<u8> {
    seq![(v >> 24) as u8, (v >> 16) as u8, (v >> 8) as u8, v as u8]
}

/// Little-endian bytes of a `u32`.
pub open spec fn u32_le_bytes(v: u32) -> Seq<u8> {
    seq![v as u8, (v >> 8) as u8, (v >> 16) as u8, (v >> 24) as u8]
}

/// The `u32` whose big-endian bytes start `s`.
pub open spec fn u32_from_be(s: Seq<u8>) -> u32 {
    ((s[0] as u32) << 24) | ((s[1] as u32) << 16) | ((s[2] as u32) << 8) | (s[3] as u32)
}

/// The `u32` whose little-endian bytes start `s`.
pub open spec fn u32_from_le(s: Seq<u8>) -> u32 {
    (s[0] as u32) | ((s[1] as u32) << 8) | ((s[2] as u32) << 16) | ((s[3] as u32) << 24)
}

/// Big-endian bytes of a `u64`.
pub open spec fn u64_be_bytes(v: u64) -> Seq<u8> {
    seq![
        (v >> 56) as u8,
        (v >> 48) as u8,
        (v >> 40) as u8,
        (v >> 32) as u8,
        (v >> 24) as u8,
        (v >> 16) as u8,
        (v >> 8) as u8,
        v as u8,
    ]
}

/// Little-endian bytes of a `u64`.
pub open spec fn u64_le_bytes(v: u64) -> Seq<u8> {
    seq![
        v as u8,
        (v >> 8) as u8,
        (v >> 16) as u8,
        (v >> 24) as u8,
        (v >> 32) as u8,
        (v >> 40) as u8,
        (v >> 48) as u8,
        (v >> 56) as u8,
    ]
}

/// The `u64` whose big-endian bytes start `s`.
pub open spec fn u64_from_be(s: Seq<u8>) -> u64 {
    ((s[0] as u64) << 56) | ((s[1] as u64) << 48) | ((s[2] as u64) << 40) | ((s[3] as u64) << 32)
        | ((s[4] as u64) << 24) | ((s[5] as u64) << 16) | ((s[6] as u64) << 8) | (s[7] as u64)
}

/// The `u64` whose little-endian bytes start `s`.
pub open spec fn u64_from_le(s: Seq<u8>) -> u64 {
    (s[0] as u64) | ((s[1] as u64) << 8) | ((s[2] as u64) << 16) | ((s[3] as u64) << 24) | ((
    s[4] as u64) << 32) | ((s[5] as u64) << 40) | ((s[6] as u64) << 48) | ((s[7] as u64) << 56)
}

/// Decoding the bytes of a `u16` gives the value back, in either byte order,
/// whatever follows the bytes.
pub proof fn lemma_u16_roundtrip(v: u16, rest: Seq<u8>)
    ensures
        u16_be_bytes(v).len() == 2,
        u16_le_bytes(v).len() == 2,
        u16_from_be(u16_be_bytes(v) + rest) == v,
        u16_from_le(u16_le_bytes(v) + rest) == v,
{
    let b = u16_be_bytes(v) + rest;
    let l = u16_le_bytes(v) + rest;
    assert(b[0] == (v >> 8) as u8 && b[1] == v as u8);
    assert(l[0] == v as u8 && l[1] == (v >> 8) as u8);
    assert((((((v >> 8) as u8) as u16) << 8) | ((v as u8) as u16)) == v) by (bit_vector);
    assert((((v as u8) as u16) | ((((v >> 8) as u8) as u16) << 8)) == v) by (bit_vector);
}

/// Decoding the bytes of a `u32` gives the value back, in either byte order,
/// whatever follows the bytes.
pub proof fn lemma_u32_roundtrip(v: u32, rest: Seq<u8>)
    ensures
        u32_be_bytes(v).len() == 4,
        u32_le_bytes(v).len() == 4,
        u32_from_be(u32_be_bytes(v) + rest) == v,
        u32_from_le(u32_le_bytes(v) + rest) == v,
{
    let b = u32_be_bytes(v) + rest;
    let l = u32_le_bytes(v) + rest;
    assert(b[0] == (v >> 24) as u8 && b[1] == (v >> 16) as u8 && b[2] == (v >> 8) as u8 && b[3]
        == v as u8);
    assert(l[0] == v as u8 && l[1] == (v >> 8) as u8 && l[2] == (v >> 16) as u8 && l[3] == (v
        >> 24) as u8);
    assert(((((v >> 24) as u8) as u32) << 24) | ((((v >> 16) as u8) as u32) << 16) | ((((v
        >> 8) as u8) as u32) << 8) | ((v as u8) as u32) == v) by (bit_vector);
    assert(((v as u8) as u32) | ((((v >> 8) as u8) as u32) << 8) | ((((v >> 16) as u8) as u32)
        << 16) | ((((v >> 24) as u8) as u32) << 24) == v) by (bit_vector);
}

/// Decoding the bytes of a `u64` gives the value back, in either byte order,
/// whatever follows the bytes.
pub proof fn lemma_u64_roundtrip(v: u64, rest: Seq<u8>)
    ensures
        u64_be_bytes(v).len() == 8,
        u64_le_bytes(v).len() == 8,
        u64_from_be(u64_be_bytes(v) + rest) == v,
        u64_from_le(u64_le_bytes(v) + rest) == v,
{
    let b = u64_be_bytes(v) + rest;
    let l = u64_le_bytes(v) + rest;
    assert(b[0] == (v >> 56) as u8 && b[1] == (v >> 48) as u8 && b[2] == (v >> 40) as u8 && b[3]
        == (v >> 32) as u8 && b[4] == (v >> 24) as u8 && b[5] == (v >> 16) as u8 && b[6] == (v
        >> 8) as u8 && b[7] == v as u8);
    assert(l[0] == v as u8 && l[1] == (v >> 8) as u8 && l[2] == (v >> 16) as u8 && l[3] == (v
        >> 24) as u8 && l[4] == (v >> 32) as u8 && l[5] == (v >> 40) as u8 && l[6] == (v >> 48)
        as u8 && l[7] == (v >> 56) as u8);
    assert(((((v >> 56) as u8) as u64) << 56) | ((((v >> 48) as u8) as u64) << 48) | ((((v
        >> 40) as u8) as u64) << 40) | ((((v >> 32) as u8) as u64) << 32) | ((((v >> 24) as u8)
        as u64) << 24) | ((((v >> 16) as u8) as u64) << 16) | ((((v >> 8) as u8) as u64) << 8)
        | ((v as u8) as u64) == v) by (bit_vector);
    assert(((v as u8) as u64) | ((((v >> 8) as u8) as u64) << 8) | ((((v >> 16) as u8) as u64)
        << 16) | ((((v >> 24) as u8) as u64) << 24) | ((((v >> 32) as u8) as u64) << 32) | ((((v
        >> 40) as u8) as u64) << 40) | ((((v >> 48) as u8) as u64) << 48) | ((((v >> 56) as u8)
        as u64) << 56) == v) by (bit_vector);
}

/// Encoding a decoded `u32` gives back the four bytes it was read from.
pub proof fn lemma_u32_bytes_roundtrip(s: Seq<u8>)
    requires
        s.len() >= 4,
    ensures
        u32_le_bytes(u32_from_le(s)) == s.take(4),
        u32_be_bytes(u32_from_be(s)) == s.take(4),
{
    let (a, b, c, d) = (s[0], s[1], s[2], s[3]);
    let x = u32_from_le(s);
    let y = u32_from_be(s);
    assert(x == (a as u32) | ((b as u32) << 8) | ((c as u32) << 16) | ((d as u32) << 24) ==> (x
        as u8 == a && (x >> 8) as u8 == b && (x >> 16) as u8 == c && (x >> 24) as u8 == d))
        by (bit_vector);
    assert(y == ((a as u32) << 24) | ((b as u32) << 16) | ((c as u32) << 8) | (d as u32) ==> (y
        as u8 == d && (y >> 8) as u8 == c && (y >> 16) as u8 == b && (y >> 24) as u8 == a))
        by (bit_vector);
    assert(u32_le_bytes(x) =~= s.take(4));
    assert(u32_be_bytes(y) =~= s.take(4));
}

} // verus!
