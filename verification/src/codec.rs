//! Little-endian encoding of fixed-width integers, and appending to a byte
//! buffer.

use byteorder::{ByteOrder, LittleEndian};
use vstd::prelude::*;

verus! {

/// The two bytes of `n`, least significant first.
pub open spec fn u16_le_bytes(n: u16) -> Seq<u8> {
    seq![(n % 256) as u8, (n / 256) as u8]
}

/// The four bytes of `n`, least significant first.
pub open spec fn u32_le_bytes(n: u32) -> Seq<u8> {
    seq![
        (n % 256) as u8,
        (n / 256 % 256) as u8,
        (n / 65536 % 256) as u8,
        (n / 16777216) as u8,
    ]
}

/// The signed 16-bit value whose two's complement encoding has `low` as its
/// least significant byte and `high` as its most significant one.
pub open spec fn i16_from_le(low: u8, high: u8) -> int {
    let unsigned = low as int + 256 * (high as int);
    if unsigned >= 32768 {
        unsigned - 65536
    } else {
        unsigned
    }
}

/// The unsigned 16-bit value of two little-endian bytes.
pub open spec fn u16_from_le(low: u8, high: u8) -> int {
    low as int + 256 * (high as int)
}

/// The unsigned 32-bit value of four little-endian bytes.
pub open spec fn u32_from_le(b0: u8, b1: u8, b2: u8, b3: u8) -> int {
    b0 as int + 256 * (b1 as int) + 65536 * (b2 as int) + 16777216 * (b3 as int)
}

/// The signed 32-bit value of four little-endian bytes in two's complement.
pub open spec fn i32_from_le(b0: u8, b1: u8, b2: u8, b3: u8) -> int {
    let unsigned = u32_from_le(b0, b1, b2, b3);
    if unsigned >= 2147483648 {
        unsigned - 4294967296
    } else {
        unsigned
    }
}

/// Calls `byteorder::LittleEndian::write_u16` on a two-byte buffer. Trusted:
/// the buffer then holds the low byte of `n` followed by its high byte.
#[verifier::external_body]
pub(crate) fn encode_u16(n: u16) -> (bytes: [u8; 2])
    ensures
        bytes@ == u16_le_bytes(n),
{
    let mut bytes = [0u8; 2];
    LittleEndian::write_u16(&mut bytes, n);
    bytes
}

/// Calls `byteorder::LittleEndian::write_u32` on a four-byte buffer. Trusted:
/// the buffer then holds the four bytes of `n` from least to most significant.
#[verifier::external_body]
pub(crate) fn encode_u32(n: u32) -> (bytes: [u8; 4])
    ensures
        bytes@ == u32_le_bytes(n),
{
    let mut bytes = [0u8; 4];
    LittleEndian::write_u32(&mut bytes, n);
    bytes
}

/// Calls `byteorder::LittleEndian::read_i16`, which panics on fewer than two
/// bytes. Trusted: the result is the two's complement value of the first two
/// bytes, the first being the less significant.
#[verifier::external_body]
pub(crate) fn decode_i16(bytes: &[u8]) -> (value: i16)
    requires
        bytes@.len() >= 2,
    ensures
        value as int == i16_from_le(bytes@[0], bytes@[1]),
{
    LittleEndian::read_i16(bytes)
}

/// Calls `byteorder::LittleEndian::read_u16`, which panics on fewer than two
/// bytes. Trusted: the result is the value of the first two bytes, the first
/// being the less significant.
#[verifier::external_body]
pub(crate) fn decode_u16(bytes: &[u8]) -> (value: u16)
    requires
        bytes@.len() >= 2,
    ensures
        value as int == u16_from_le(bytes@[0], bytes@[1]),
{
    LittleEndian::read_u16(bytes)
}

/// Calls `byteorder::LittleEndian::read_u32`, which panics on fewer than four
/// bytes. Trusted: the result is the value of the first four bytes, from
/// least to most significant.
#[verifier::external_body]
pub(crate) fn decode_u32(bytes: &[u8]) -> (value: u32)
    requires
        bytes@.len() >= 4,
    ensures
        value as int == u32_from_le(bytes@[0], bytes@[1], bytes@[2], bytes@[3]),
{
    LittleEndian::read_u32(bytes)
}

/// Calls `byteorder::LittleEndian::read_i32`, which panics on fewer than four
/// bytes. Trusted: the result is the two's complement value of the first four
/// bytes, from least to most significant.
#[verifier::external_body]
pub(crate) fn decode_i32(bytes: &[u8]) -> (value: i32)
    requires
        bytes@.len() >= 4,
    ensures
        value as int == i32_from_le(bytes@[0], bytes@[1], bytes@[2], bytes@[3]),
{
    LittleEndian::read_i32(bytes)
}

/// Appends one byte to `out`.
pub fn write_u8(out: &mut Vec<u8>, n: u8)
    ensures
        final(out)@ == old(out)@.push(n),
{
    out.push(n);
}

/// Appends every byte of `bytes` to `out`, in order.
pub fn write_all(out: &mut Vec<u8>, bytes: &[u8])
    ensures
        final(out)@ == old(out)@ + bytes@,
{
    let mut i: usize = 0;
    while i < bytes.len()
        invariant
            i <= bytes@.len(),
            out@ == old(out)@ + bytes@.subrange(0, i as int),
        decreases bytes@.len() - i,
    {
        out.push(bytes[i]);
        i = i + 1;
    }
}

/// Appends `n` to `out` as two little-endian bytes.
pub fn write_u16(out: &mut Vec<u8>, n: u16)
    ensures
        final(out)@ == old(out)@ + u16_le_bytes(n),
{
    let bytes = encode_u16(n);
    write_all(out, &bytes);
}

/// Appends `n` to `out` as four little-endian bytes.
pub fn write_u32(out: &mut Vec<u8>, n: u32)
    ensures
        final(out)@ == old(out)@ + u32_le_bytes(n),
{
    let bytes = encode_u32(n);
    write_all(out, &bytes);
}

} // verus!
