//! Little-endian field encoding used by the GUD control transfers.
//!
//! Every GUD structure travels as its fields laid end to end, each integer in
//! little-endian byte order and without padding. This module holds the byte
//! level codecs and the laws that tie encoding and decoding together.
use vstd::prelude::*;

verus! {

/// The two bytes of `v`, least significant first.
pub open spec fn u16_le_bytes(v: u16) -> Seq<u8> {
    seq![(v % 256) as u8, (v / 256) as u8]
}

/// The four bytes of `v`, least significant first.
pub open spec fn u32_le_bytes(v: u32) -> Seq<u8> {
    seq![(v % 256) as u8, ((v / 256) % 256) as u8, ((v / 65536) % 256) as u8, (v / 16777216) as u8]
}

/// The value of two little-endian bytes.
pub open spec fn u16_from_le(s: Seq<u8>) -> int {
    s[0] + 256 * s[1]
}

/// The value of four little-endian bytes.
pub open spec fn u32_from_le(s: Seq<u8>) -> int {
    s[0] + 256 * s[1] + 65536 * s[2] + 16777216 * s[3]
}

/// Decoding the encoding of a `u16` gives it back.
pub proof fn lemma_u16_le_roundtrip(v: u16)
    ensures
        u16_from_le(u16_le_bytes(v)) == v,
{
    let b = u16_le_bytes(v);
    assert(b[0] == v % 256);
    assert(b[1] == v / 256);
    assert(v == v % 256 + 256 * (v / 256)) by (nonlinear_arith);
}

/// Decoding the encoding of a `u32` gives it back.
pub proof fn lemma_u32_le_roundtrip(v: u32)
    ensures
        u32_from_le(u32_le_bytes(v)) == v,
{
    let b = u32_le_bytes(v);
    assert(b[0] == v % 256);
    assert(b[1] == (v / 256) % 256);
    assert(b[2] == (v / 65536) % 256);
    assert(b[3] == v / 16777216);
    assert(v == v % 256 + 256 * ((v / 256) % 256) + 65536 * ((v / 65536) % 256) + 16777216 * (v
        / 16777216)) by (nonlinear_arith);
}

/// Encoding the value of two bytes gives the same bytes.
pub proof fn lemma_u16_le_bytes_of_value(s: Seq<u8>)
    requires
        s.len() == 2,
    ensures
        0 <= u16_from_le(s) <= u16::MAX,
        u16_le_bytes(u16_from_le(s) as u16) == s,
{
    let x: int = s[0] + 256 * s[1];
    let a: int = s[0] as int;
    let c: int = s[1] as int;
    assert(x % 256 == a && x / 256 == c) by (nonlinear_arith)
        requires
            x == a + 256 * c,
            0 <= a < 256,
            0 <= c < 256,
    ;
    assert(u16_le_bytes(x as u16) =~= s);
}

/// Encoding the value of four bytes gives the same bytes.
pub proof fn lemma_u32_le_bytes_of_value(s: Seq<u8>)
    requires
        s.len() == 4,
    ensures
        0 <= u32_from_le(s) <= u32::MAX,
        u32_le_bytes(u32_from_le(s) as u32) == s,
{
    let a: int = s[0] as int;
    let b: int = s[1] as int;
    let c: int = s[2] as int;
    let d: int = s[3] as int;
    let x: int = a + 256 * b + 65536 * c + 16777216 * d;
    assert(x % 256 == a && (x / 256) % 256 == b && (x / 65536) % 256 == c && x / 16777216 == d)
        by (nonlinear_arith)
        requires
            x == a + 256 * b + 65536 * c + 16777216 * d,
            0 <= a < 256,
            0 <= b < 256,
            0 <= c < 256,
            0 <= d < 256,
    ;
    assert(u32_le_bytes(x as u32) =~= s);
}

/// Appends the little-endian bytes of `v`.
pub fn push_u16_le(out: &mut Vec<u8>, v: u16)
    ensures
        final(out)@ == old(out)@ + u16_le_bytes(v),
{
    out.push((v % 256) as u8);
    out.push((v / 256) as u8);
    assert(final(out)@ =~= old(out)@ + u16_le_bytes(v));
}

/// Appends the little-endian bytes of `v`.
pub fn push_u32_le(out: &mut Vec<u8>, v: u32)
    ensures
        final(out)@ == old(out)@ + u32_le_bytes(v),
{
    out.push((v % 256) as u8);
    out.push(((v / 256) % 256) as u8);
    out.push(((v / 65536) % 256) as u8);
    out.push((v / 16777216) as u8);
    assert(final(out)@ =~= old(out)@ + u32_le_bytes(v));
}

/// Reads the little-endian `u16` that starts at `offset`.
pub fn read_u16_le(buf: &[u8], offset: usize) -> (r: u16)
    requires
        offset + 2 <= buf.len(),
    ensures
        r == u16_from_le(buf@.subrange(offset as int, offset + 2)),
{
    let lo = buf[offset] as u16;
    let hi = buf[offset + 1] as u16;
    lo + hi * 256
}

/// Reads the little-endian `u32` that starts at `offset`.
pub fn read_u32_le(buf: &[u8], offset: usize) -> (r: u32)
    requires
        offset + 4 <= buf.len(),
    ensures
        r == u32_from_le(buf@.subrange(offset as int, offset + 4)),
{
    let b0 = buf[offset] as u32;
    let b1 = buf[offset + 1] as u32;
    let b2 = buf[offset + 2] as u32;
    let b3 = buf[offset + 3] as u32;
    b0 + b1 * 256 + b2 * 65536 + b3 * 16777216
}

} // verus!
