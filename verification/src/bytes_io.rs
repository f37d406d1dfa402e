//! Reading and writing little-endian integers in byte buffers.
use vstd::prelude::*;
use byteorder::{ByteOrder, LittleEndian};

verus! {

/// The two bytes of a `u16`, least significant first.
pub open spec fn le_bytes_u16(v: int) -> Seq<u8> {
    seq![(v % 256) as u8, (v / 256 % 256) as u8]
}

/// The four bytes of a `u32`, least significant first.
pub open spec fn le_bytes_u32(v: int) -> Seq<u8> {
    seq![(v % 256) as u8, (v / 256 % 256) as u8, (v / 65536 % 256) as u8, (v / 16777216 % 256) as u8]
}

/// The value of two bytes read least significant first.
pub open spec fn le_value_u16(b: Seq<u8>) -> int {
    b[0] + 256 * b[1]
}

/// The value of four bytes read least significant first.
pub open spec fn le_value_u32(b: Seq<u8>) -> int {
    b[0] + 256 * b[1] + 65536 * b[2] + 16777216 * b[3]
}

/// `byteorder::LittleEndian::read_u16`: the first two bytes, least
/// significant first. It panics on a shorter buffer.
#[verifier::external_body]
pub(crate) fn read_u16_le(buf: &[u8]) -> (r: u16)
    requires
        buf@.len() >= 2,
    ensures
        r == le_value_u16(buf@),
{
    LittleEndian::read_u16(buf)
}

/// `byteorder::LittleEndian::read_u32`: the first four bytes, least
/// significant first. It panics on a shorter buffer.
#[verifier::external_body]
pub(crate) fn read_u32_le(buf: &[u8]) -> (r: u32)
    requires
        buf@.len() >= 4,
    ensures
        r == le_value_u32(buf@),
{
    LittleEndian::read_u32(buf)
}

/// `bytes::Buf::get_u8` on a byte slice: the first byte and the slice after
/// it. It panics on an empty slice.
#[verifier::external_body]
pub(crate) fn get_u8(buf: &[u8]) -> (r: (u8, &[u8]))
    requires
        buf@.len() >= 1,
    ensures
        r.0 == buf@[0],
        r.1@ == buf@.subrange(1, buf@.len() as int),
{
    let mut rest = buf;
    let first = bytes::Buf::get_u8(&mut rest);
    (first, rest)
}

/// The two bytes of a `u16`, least significant first.
pub fn u16_to_le_bytes(v: u16) -> (r: [u8; 2])
    ensures
        r@ == le_bytes_u16(v as int),
{
    let r = [(v % 256) as u8, (v / 256) as u8];
    assert(r@ =~= le_bytes_u16(v as int));
    r
}

/// The four bytes of a `u32`, least significant first.
pub fn u32_to_le_bytes(v: u32) -> (r: [u8; 4])
    ensures
        r@ == le_bytes_u32(v as int),
{
    let r = [(v % 256) as u8, (v / 256 % 256) as u8, (v / 65536 % 256) as u8, (v / 16777216 % 256) as u8];
    assert(r@ =~= le_bytes_u32(v as int));
    r
}

/// Reading back the bytes of a `u16` gives the `u16`.
pub proof fn lemma_le_u16_roundtrip(v: int)
    requires
        0 <= v < 65536,
    ensures
        le_value_u16(le_bytes_u16(v)) == v,
{
}

/// Reading back the bytes of a `u32` gives the `u32`.
pub proof fn lemma_le_u32_roundtrip(v: int)
    requires
        0 <= v < 4294967296,
    ensures
        le_value_u32(le_bytes_u32(v)) == v,
{
}

} // verus!
