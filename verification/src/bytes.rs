//! Big-endian byte combining and splitting for the header codec.

use vstd::prelude::*;

verus! {

/// The value of two bytes read big-endian.
pub open spec fn spec_be16(hi: u8, lo: u8) -> u16 {
    (hi * 256 + lo) as u16
}

/// The value of four bytes read big-endian.
pub open spec fn spec_be32(b0: u8, b1: u8, b2: u8, b3: u8) -> u32 {
    (b0 * 0x1000000 + b1 * 0x10000 + b2 * 0x100 + b3) as u32
}

/// Combines two bytes big-endian.
pub fn be16(hi: u8, lo: u8) -> (v: u16)
    ensures
        v == spec_be16(hi, lo),
{
    (hi as u16) * 256 + (lo as u16)
}

/// Combines four bytes big-endian.
pub fn be32(b0: u8, b1: u8, b2: u8, b3: u8) -> (v: u32)
    ensures
        v == spec_be32(b0, b1, b2, b3),
{
    (b0 as u32) * 0x1000000 + (b1 as u32) * 0x10000 + (b2 as u32) * 0x100 + (b3 as u32)
}

/// The high byte of a 16-bit value.
pub open spec fn spec_hi16(v: u16) -> u8 {
    (v / 256) as u8
}

/// The low byte of a 16-bit value.
pub open spec fn spec_lo16(v: u16) -> u8 {
    (v % 256) as u8
}

/// Splitting a 16-bit value gives back the bytes it was combined from.
pub proof fn lemma_be16_split(hi: u8, lo: u8)
    ensures
        spec_hi16(spec_be16(hi, lo)) == hi,
        spec_lo16(spec_be16(hi, lo)) == lo,
{
    assert((hi * 256 + lo) / 256 == hi && (hi * 256 + lo) % 256 == lo) by (nonlinear_arith)
        requires hi <= 255 && lo <= 255;
}

/// The byte of a 32-bit value at a big-endian position: 0 is the most
/// significant byte, 3 the least.
pub open spec fn spec_byte32(v: u32, pos: int) -> u8 {
    if pos == 0 {
        (v / 0x1000000) as u8
    } else if pos == 1 {
        ((v / 0x10000) % 256) as u8
    } else if pos == 2 {
        ((v / 0x100) % 256) as u8
    } else {
        (v % 256) as u8
    }
}

/// Splitting a 32-bit value gives back the bytes it was combined from.
pub proof fn lemma_be32_split(b0: u8, b1: u8, b2: u8, b3: u8)
    ensures
        spec_byte32(spec_be32(b0, b1, b2, b3), 0) == b0,
        spec_byte32(spec_be32(b0, b1, b2, b3), 1) == b1,
        spec_byte32(spec_be32(b0, b1, b2, b3), 2) == b2,
        spec_byte32(spec_be32(b0, b1, b2, b3), 3) == b3,
{
    let v: int = b0 * 0x1000000 + b1 * 0x10000 + b2 * 0x100 + b3;
    vstd::arithmetic::div_mod::lemma_fundamental_div_mod_converse(
        v, 0x1000000, b0 as int, b1 * 0x10000 + b2 * 0x100 + b3);
    vstd::arithmetic::div_mod::lemma_fundamental_div_mod_converse(
        v, 0x10000, b0 * 0x100 + b1, b2 * 0x100 + b3);
    vstd::arithmetic::div_mod::lemma_fundamental_div_mod_converse(
        (b0 * 0x100 + b1) as int, 0x100, b0 as int, b1 as int);
    vstd::arithmetic::div_mod::lemma_fundamental_div_mod_converse(
        v, 0x100, b0 * 0x10000 + b1 * 0x100 + b2, b3 as int);
    vstd::arithmetic::div_mod::lemma_fundamental_div_mod_converse(
        (b0 * 0x10000 + b1 * 0x100 + b2) as int, 0x100, b0 * 0x100 + b1, b2 as int);
}

} // verus!
