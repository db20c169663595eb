//! Little-endian integers in byte strings.

use byteorder::{ByteOrder, LittleEndian};
use vstd::prelude::*;

verus! {

/// The unsigned 16-bit value that the first two bytes of `b` spell, least
/// significant byte first.
pub open spec fn le_u16(b: Seq<u8>) -> int
    recommends
        b.len() >= 2,
{
    b[0] as int + 256 * (b[1] as int)
}

/// The unsigned 32-bit value that the first four bytes of `b` spell, least
/// significant byte first.
pub open spec fn le_u32(b: Seq<u8>) -> int
    recommends
        b.len() >= 4,
{
    b[0] as int + 256 * (b[1] as int) + 65536 * (b[2] as int) + 16777216 * (b[3] as int)
}

/// The signed 32-bit value (two's complement) that the first four bytes of
/// `b` spell, least significant byte first.
pub open spec fn le_i32(b: Seq<u8>) -> int
    recommends
        b.len() >= 4,
{
    if le_u32(b) < 0x8000_0000 {
        le_u32(b)
    } else {
        le_u32(b) - 0x1_0000_0000
    }
}

/// Whether `n` bytes can be read from `data` starting at `pos`.
pub open spec fn has_bytes(data: Seq<u8>, pos: int, n: int) -> bool {
    0 <= pos && 0 <= n && pos + n <= data.len()
}

/// How many bytes `data` holds from `pos` on.
pub open spec fn remaining(data: Seq<u8>, pos: int) -> nat {
    if 0 <= pos < data.len() {
        (data.len() - pos) as nat
    } else {
        0
    }
}

/// The 16-bit value that the two bytes at `pos` spell.
pub open spec fn u16_of(data: Seq<u8>, pos: int) -> u16
    recommends
        has_bytes(data, pos, 2),
{
    le_u16(data.subrange(pos, pos + 2)) as u16
}

/// The unsigned 32-bit value that the four bytes at `pos` spell.
pub open spec fn u32_of(data: Seq<u8>, pos: int) -> u32
    recommends
        has_bytes(data, pos, 4),
{
    le_u32(data.subrange(pos, pos + 4)) as u32
}

/// The signed 32-bit value that the four bytes at `pos` spell.
pub open spec fn i32_of(data: Seq<u8>, pos: int) -> i32
    recommends
        has_bytes(data, pos, 4),
{
    le_i32(data.subrange(pos, pos + 4)) as i32
}

/// The 16-bit value at `pos`, if two bytes are there.
pub open spec fn u16_at(data: Seq<u8>, pos: int) -> Option<u16> {
    if has_bytes(data, pos, 2) {
        Some(u16_of(data, pos))
    } else {
        None
    }
}

/// The unsigned 32-bit value at `pos`, if four bytes are there.
pub open spec fn u32_at(data: Seq<u8>, pos: int) -> Option<u32> {
    if has_bytes(data, pos, 4) {
        Some(u32_of(data, pos))
    } else {
        None
    }
}

/// The signed 32-bit value at `pos`, if four bytes are there.
pub open spec fn i32_at(data: Seq<u8>, pos: int) -> Option<i32> {
    if has_bytes(data, pos, 4) {
        Some(i32_of(data, pos))
    } else {
        None
    }
}

/// `byteorder::LittleEndian::read_u16`: the first two bytes of `buf` as a
/// little-endian number. The outside function panics on a shorter buffer,
/// which `requires` excludes.
#[verifier::external_body]
fn le_read_u16(buf: &[u8]) -> (r: u16)
    requires
        buf@.len() >= 2,
    ensures
        r as int == le_u16(buf@),
{
    LittleEndian::read_u16(buf)
}

/// `byteorder::LittleEndian::read_u32`: the first four bytes of `buf` as a
/// little-endian number. The outside function panics on a shorter buffer,
/// which `requires` excludes.
#[verifier::external_body]
fn le_read_u32(buf: &[u8]) -> (r: u32)
    requires
        buf@.len() >= 4,
    ensures
        r as int == le_u32(buf@),
{
    LittleEndian::read_u32(buf)
}

/// `byteorder::LittleEndian::read_i32`: the first four bytes of `buf` as a
/// little-endian two's complement number. The outside function panics on a
/// shorter buffer, which `requires` excludes.
#[verifier::external_body]
fn le_read_i32(buf: &[u8]) -> (r: i32)
    requires
        buf@.len() >= 4,
    ensures
        r as int == le_i32(buf@),
{
    LittleEndian::read_i32(buf)
}

/// Two bytes fit a `u16`, four a `u32`, and the signed reading an `i32`.
pub proof fn le_values_in_range(b: Seq<u8>)
    ensures
        b.len() >= 2 ==> 0 <= le_u16(b) <= u16::MAX,
        b.len() >= 4 ==> 0 <= le_u32(b) <= u32::MAX,
        b.len() >= 4 ==> i32::MIN <= le_i32(b) <= i32::MAX,
{
}

/// Reads the little-endian `u16` at `pos`, or nothing where `data` ends
/// before `pos + 2`.
pub fn read_u16_at(data: &[u8], pos: usize) -> (r: Option<u16>)
    ensures
        r == u16_at(data@, pos as int),
{
    if pos <= data.len() && data.len() - pos >= 2 {
        let v = le_read_u16(&data[pos..pos + 2]);
        proof {
            le_values_in_range(data@.subrange(pos as int, pos + 2));
        }
        Some(v)
    } else {
        None
    }
}

/// Reads the little-endian `u32` at `pos`, or nothing where `data` ends
/// before `pos + 4`.
pub fn read_u32_at(data: &[u8], pos: usize) -> (r: Option<u32>)
    ensures
        r == u32_at(data@, pos as int),
{
    if pos <= data.len() && data.len() - pos >= 4 {
        let v = le_read_u32(&data[pos..pos + 4]);
        proof {
            le_values_in_range(data@.subrange(pos as int, pos + 4));
        }
        Some(v)
    } else {
        None
    }
}

/// Reads the little-endian `i32` at `pos`, or nothing where `data` ends
/// before `pos + 4`.
pub fn read_i32_at(data: &[u8], pos: usize) -> (r: Option<i32>)
    ensures
        r == i32_at(data@, pos as int),
{
    if pos <= data.len() && data.len() - pos >= 4 {
        let v = le_read_i32(&data[pos..pos + 4]);
        proof {
            le_values_in_range(data@.subrange(pos as int, pos + 4));
        }
        Some(v)
    } else {
        None
    }
}

} // verus!
