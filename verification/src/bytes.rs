//! Little-endian packing of integers into CAN payload bytes.

use vstd::prelude::*;

verus! {

/// Low byte of a 16-bit value.
pub open spec fn u16_byte0(v: u16) -> u8 {
    (v & 0xff) as u8
}

/// High byte of a 16-bit value.
pub open spec fn u16_byte1(v: u16) -> u8 {
    (v >> 8u16) as u8
}

/// The 16-bit value whose little-endian bytes are `b0, b1`.
pub open spec fn u16_from_le(b0: u8, b1: u8) -> u16 {
    (b0 as u16) | ((b1 as u16) << 8u16)
}

/// The `n`-th least significant byte of a 32-bit value, for `n < 4`.
pub open spec fn u32_byte(v: u32, n: u32) -> u8 {
    ((v >> (8 * n)) & 0xff) as u8
}

/// The 32-bit value whose little-endian bytes are `b0, b1, b2, b3`.
pub open spec fn u32_from_le(b0: u8, b1: u8, b2: u8, b3: u8) -> u32 {
    (b0 as u32) | ((b1 as u32) << 8u32) | ((b2 as u32) << 16u32) | ((b3 as u32) << 24u32)
}

/// Splitting a 16-bit value into bytes and joining them gives it back.
pub proof fn lemma_u16_le_roundtrip(v: u16)
    ensures
        u16_from_le(u16_byte0(v), u16_byte1(v)) == v,
{
    let b0 = u16_byte0(v);
    let b1 = u16_byte1(v);
    assert((b0 as u16) | ((b1 as u16) << 8u16) == v) by (bit_vector)
        requires
            b0 == (v & 0xff) as u8,
            b1 == (v >> 8u16) as u8,
    ;
}

/// Joining two bytes into a 16-bit value and splitting it gives them back.
pub proof fn lemma_u16_from_le_bytes(b0: u8, b1: u8)
    ensures
        u16_byte0(u16_from_le(b0, b1)) == b0,
        u16_byte1(u16_from_le(b0, b1)) == b1,
{
    let v = u16_from_le(b0, b1);
    assert((v & 0xff) as u8 == b0 && (v >> 8u16) as u8 == b1) by (bit_vector)
        requires
            v == (b0 as u16) | ((b1 as u16) << 8u16),
    ;
}

/// Splitting a 32-bit value into bytes and joining them gives it back.
pub proof fn lemma_u32_le_roundtrip(v: u32)
    ensures
        u32_from_le(u32_byte(v, 0), u32_byte(v, 1), u32_byte(v, 2), u32_byte(v, 3)) == v,
{
    let b0 = u32_byte(v, 0);
    let b1 = u32_byte(v, 1);
    let b2 = u32_byte(v, 2);
    let b3 = u32_byte(v, 3);
    assert((b0 as u32) | ((b1 as u32) << 8u32) | ((b2 as u32) << 16u32) | ((b3 as u32) << 24u32)
        == v) by (bit_vector)
        requires
            b0 == ((v >> 0u32) & 0xff) as u8,
            b1 == ((v >> 8u32) & 0xff) as u8,
            b2 == ((v >> 16u32) & 0xff) as u8,
            b3 == ((v >> 24u32) & 0xff) as u8,
    ;
}

/// Joining four bytes into a 32-bit value and splitting it gives them back.
pub proof fn lemma_u32_from_le_bytes(b0: u8, b1: u8, b2: u8, b3: u8)
    ensures
        u32_byte(u32_from_le(b0, b1, b2, b3), 0) == b0,
        u32_byte(u32_from_le(b0, b1, b2, b3), 1) == b1,
        u32_byte(u32_from_le(b0, b1, b2, b3), 2) == b2,
        u32_byte(u32_from_le(b0, b1, b2, b3), 3) == b3,
{
    let v = u32_from_le(b0, b1, b2, b3);
    assert(((v >> 0u32) & 0xff) as u8 == b0 && ((v >> 8u32) & 0xff) as u8 == b1
        && ((v >> 16u32) & 0xff) as u8 == b2 && ((v >> 24u32) & 0xff) as u8 == b3)
        by (bit_vector)
        requires
            v == (b0 as u32) | ((b1 as u32) << 8u32) | ((b2 as u32) << 16u32) | ((b3 as u32)
                << 24u32),
    ;
}

/// The bytes of a 16-bit value are its base-256 digits, least significant
/// first, and joining two bytes weighs the second by 256.
pub proof fn lemma_u16_le_value(v: u16, b0: u8, b1: u8)
    ensures
        u16_byte0(v) == v % 256,
        u16_byte1(v) == v / 256,
        u16_from_le(b0, b1) == b0 + 256 * b1,
{
    assert((v & 0xff) as u8 == v % 256 && (v >> 8u16) as u8 == v / 256) by (bit_vector);
    assert((b0 as u16) | ((b1 as u16) << 8u16) == b0 + 256 * b1) by (bit_vector);
}

/// The bytes of a 32-bit value are its base-256 digits, least significant
/// first, and joining four bytes weighs them by 1, 2^8, 2^16 and 2^24.
pub proof fn lemma_u32_le_value(v: u32, b0: u8, b1: u8, b2: u8, b3: u8)
    ensures
        u32_byte(v, 0) == v % 0x100,
        u32_byte(v, 1) == (v / 0x100) % 0x100,
        u32_byte(v, 2) == (v / 0x1_0000) % 0x100,
        u32_byte(v, 3) == v / 0x100_0000,
        u32_from_le(b0, b1, b2, b3) == b0 + 0x100 * b1 + 0x1_0000 * b2 + 0x100_0000 * b3,
{
    assert(((v >> 0u32) & 0xff) as u8 == v % 0x100 && ((v >> 8u32) & 0xff) as u8 == (v / 0x100)
        % 0x100 && ((v >> 16u32) & 0xff) as u8 == (v / 0x1_0000) % 0x100 && ((v >> 24u32) & 0xff) as u8
        == v / 0x100_0000) by (bit_vector);
    assert((b0 as u32) | ((b1 as u32) << 8u32) | ((b2 as u32) << 16u32) | ((b3 as u32) << 24u32)
        == b0 + 0x100 * b1 + 0x1_0000 * b2 + 0x100_0000 * b3) by (bit_vector);
}

/// Little-endian bytes of a 16-bit value.
pub fn u16_to_le(v: u16) -> (r: (u8, u8))
    ensures
        r.0 == u16_byte0(v),
        r.1 == u16_byte1(v),
{
    ((v & 0xff) as u8, (v >> 8) as u8)
}

/// The 16-bit value with little-endian bytes `b0, b1`.
pub fn u16_of_le(b0: u8, b1: u8) -> (r: u16)
    ensures
        r == u16_from_le(b0, b1),
{
    (b0 as u16) | ((b1 as u16) << 8)
}

/// Little-endian bytes of a 32-bit value.
pub fn u32_to_le(v: u32) -> (r: (u8, u8, u8, u8))
    ensures
        r.0 == u32_byte(v, 0),
        r.1 == u32_byte(v, 1),
        r.2 == u32_byte(v, 2),
        r.3 == u32_byte(v, 3),
{
    (
        ((v >> 0) & 0xff) as u8,
        ((v >> 8) & 0xff) as u8,
        ((v >> 16) & 0xff) as u8,
        ((v >> 24) & 0xff) as u8,
    )
}

/// The 32-bit value with little-endian bytes `b0, b1, b2, b3`.
pub fn u32_of_le(b0: u8, b1: u8, b2: u8, b3: u8) -> (r: u32)
    ensures
        r == u32_from_le(b0, b1, b2, b3),
{
    (b0 as u32) | ((b1 as u32) << 8) | ((b2 as u32) << 16) | ((b3 as u32) << 24)
}

} // verus!
