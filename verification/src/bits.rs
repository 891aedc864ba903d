//! Facts about bit patterns that the arithmetic solver cannot see by itself.

use vstd::prelude::*;

verus! {

/// One bit of a register byte: its weight where the flag is set, else 0.
pub open spec fn flag(b: bool, weight: int) -> int {
    if b {
        weight
    } else {
        0
    }
}

/// Packing four flag bits into a high nibble by addition leaves the low
/// nibble clear, and testing the four bits of a byte recovers its high nibble.
pub proof fn lemma_high_nibble(b: u8)
    by (bit_vector)
    ensures
        (b & 0xf0) & 0x0f == 0,
        (b & 0xf0) % 16 == 0,
        b % 16 == 0 ==> b & 0x0f == 0,
        (if b & 0x80 != 0 { 0x80u8 } else { 0u8 }) + (if b & 0x40 != 0 { 0x40u8 } else { 0u8 })
            + (if b & 0x20 != 0 { 0x20u8 } else { 0u8 }) + (if b & 0x10 != 0 {
            0x10u8
        } else {
            0u8
        }) == b & 0xf0,
{
}

/// A 16-bit pair is the concatenation of its two bytes.
pub proof fn lemma_pair(hi: u8, lo: u8, v: u16)
    by (bit_vector)
    ensures
        ((((hi as u16) << 8) | (lo as u16)) >> 8) as u8 == hi,
        (((hi as u16) << 8) | (lo as u16)) as u8 == lo,
        ((((v >> 8) as u8) as u16) << 8) | ((v as u8) as u16) == v,
        (((hi as u16) << 8) | (lo as u16)) == hi * 256 + lo,
        (((hi as u16) << 8) | (lo as u16)) & 0x000f == lo & 0x0f,
        (v as u8) & 0xf0 == (v & 0xf0) as u8,
{
}

/// A byte is the sum of its bits.
pub proof fn lemma_byte_bits(v: u8)
    by (bit_vector)
    ensures
        (if v & 0x80 != 0 { 0x80u8 } else { 0u8 }) + (if v & 0x40 != 0 { 0x40u8 } else { 0u8 }) + (
        if v & 0x20 != 0 { 0x20u8 } else { 0u8 }) + (if v & 0x10 != 0 { 0x10u8 } else { 0u8 }) + (
        if v & 0x08 != 0 { 0x08u8 } else { 0u8 }) + (if v & 0x04 != 0 { 0x04u8 } else { 0u8 }) + (
        if v & 0x02 != 0 { 0x02u8 } else { 0u8 }) + (if v & 0x01 != 0 { 0x01u8 } else { 0u8 })
            == v,
{
}

/// The low nibble of a byte, as a remainder.
pub proof fn lemma_mask8(a: u8)
    by (bit_vector)
    ensures
        a & 0x0fu8 == a % 16u8,
{
}

/// The low bits of a 16-bit number, as remainders.
pub proof fn lemma_mask16(w: u16)
    by (bit_vector)
    ensures
        w & 0x000fu16 == w % 16u16,
        w & 0x00ffu16 == w % 256u16,
        w & 0x0fffu16 == w % 4096u16,
{
}

/// Exchanging the nibbles of a byte twice, or complementing it twice, gives
/// the byte back.
pub proof fn lemma_involutions(v: u8)
    by (bit_vector)
    ensures
        (((v >> 4u8) | (v << 4u8)) >> 4u8) | (((v >> 4u8) | (v << 4u8)) << 4u8) == v,
        (v ^ 0xffu8) ^ 0xffu8 == v,
{
}

/// A right shift never grows a number.
pub proof fn lemma_shr_le(x: u16, s: u8)
    by (bit_vector)
    requires
        s < 16,
    ensures
        (x >> s) <= x,
{
}

} // verus!
