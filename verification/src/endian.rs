//! Big-endian integers on the wire.

use byteorder::BigEndian;
use byteorder::ByteOrder;
use vstd::prelude::*;

verus! {

/// The four bytes of `v`, most significant first.
#[verifier::opaque]
pub open spec fn be_u32_bytes(v: u32) -> Seq<u8> {
    seq![
        (v / 0x100_0000) as u8,
        (v / 0x1_0000 % 0x100) as u8,
        (v / 0x100 % 0x100) as u8,
        (v % 0x100) as u8,
    ]
}

/// The number spelled, most significant byte first, by the four bytes of
/// `b` that start at index `i`.
pub open spec fn be_u32_at(b: Seq<u8>, i: int) -> int
{
    b[i] * 0x100_0000 + b[i + 1] * 0x1_0000 + b[i + 2] * 0x100 + b[i + 3]
}

/// The two bytes of `v`, most significant first.
#[verifier::opaque]
pub open spec fn be_u16_bytes(v: u16) -> Seq<u8> {
    seq![(v / 0x100) as u8, (v % 0x100) as u8]
}

/// The number spelled, high byte first, by the two bytes of `b` that start
/// at index `i`.
pub open spec fn be_u16_at(b: Seq<u8>, i: int) -> int
{
    b[i] * 0x100 + b[i + 1]
}

/// Reading back the big-endian form of a 32-bit number gives the number.
pub proof fn lemma_be_u32_round_trip(v: u32)
    ensures
        be_u32_bytes(v).len() == 4,
        be_u32_at(be_u32_bytes(v), 0) == v,
{
    reveal(be_u32_bytes);
}

/// Reading back the big-endian form of a 16-bit number gives the number.
pub proof fn lemma_be_u16_round_trip(v: u16)
    ensures
        be_u16_bytes(v).len() == 2,
        be_u16_at(be_u16_bytes(v), 0) == v,
{
    reveal(be_u16_bytes);
}

/// Where four bytes of `data` are the big-endian form of `v`, they spell `v`.
pub proof fn lemma_be_u32_located(data: Seq<u8>, pos: int, v: u32)
    requires
        0 <= pos,
        pos + 4 <= data.len(),
        data.subrange(pos, pos + 4) == be_u32_bytes(v),
    ensures
        be_u32_at(data, pos) == v,
{
    let s = data.subrange(pos, pos + 4);
    assert(s[0] == data[pos] && s[1] == data[pos + 1] && s[2] == data[pos + 2] && s[3] == data[pos
        + 3]);
    assert(be_u32_at(data, pos) == be_u32_at(s, 0));
    lemma_be_u32_round_trip(v);
}

/// Where two bytes of `data` are the big-endian form of `v`, they spell `v`.
pub proof fn lemma_be_u16_located(data: Seq<u8>, pos: int, v: u16)
    requires
        0 <= pos,
        pos + 2 <= data.len(),
        data.subrange(pos, pos + 2) == be_u16_bytes(v),
    ensures
        be_u16_at(data, pos) == v,
{
    let s = data.subrange(pos, pos + 2);
    assert(s[0] == data[pos] && s[1] == data[pos + 1]);
    assert(be_u16_at(data, pos) == be_u16_at(s, 0));
    lemma_be_u16_round_trip(v);
}

/// `byteorder::BigEndian::write_u32` into a fresh four-byte array: the array
/// then holds the number's bytes from the most significant to the least.
#[verifier::external_body]
pub(crate) fn encode_u32(v: u32) -> (b: [u8; 4])
    ensures
        b@ == be_u32_bytes(v),
{
    let mut b = [0u8; 4];
    BigEndian::write_u32(&mut b, v);
    b
}

/// `byteorder::BigEndian::write_u16` into a fresh two-byte array: the array
/// then holds the high byte, then the low byte.
#[verifier::external_body]
pub(crate) fn encode_u16(v: u16) -> (b: [u8; 2])
    ensures
        b@ == be_u16_bytes(v),
{
    let mut b = [0u8; 2];
    BigEndian::write_u16(&mut b, v);
    b
}

/// `byteorder::BigEndian::read_u32`: the number spelled by the first four
/// bytes of the slice, most significant first. It panics on a shorter slice.
#[verifier::external_body]
pub(crate) fn decode_u32(b: &[u8]) -> (v: u32)
    requires
        b@.len() >= 4,
    ensures
        v == be_u32_at(b@, 0),
{
    BigEndian::read_u32(b)
}

/// `byteorder::BigEndian::read_u16`: the number spelled by the first two
/// bytes of the slice, high byte first. It panics on a shorter slice.
#[verifier::external_body]
pub(crate) fn decode_u16(b: &[u8]) -> (v: u16)
    requires
        b@.len() >= 2,
    ensures
        v == be_u16_at(b@, 0),
{
    BigEndian::read_u16(b)
}

} // verus!
