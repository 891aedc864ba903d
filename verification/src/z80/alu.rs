//! The arithmetic and logic of the CPU as functions of plain values: each
//! takes its operands and the flags it depends on, and gives the result and
//! the new flags.

use vstd::prelude::*;
use crate::bits::{lemma_involutions, lemma_mask16, lemma_mask8};
use crate::z80::registers::Flags;

verus! {

/// A carry as a number.
pub open spec fn carry_in(carry: bool) -> int {
    if carry {
        1
    } else {
        0
    }
}

/// ADD and ADC: the sum of `a`, `v` and the carry-in, modulo 256.
/// Z from the result, N clear, H on a carry out of bit 3, C on a carry out
/// of bit 7.
pub open spec fn spec_add8(a: u8, v: u8, carry: bool) -> (u8, Flags) {
    let result = ((a + v + carry_in(carry)) % 256) as u8;
    (
        result,
        Flags {
            zero: result == 0,
            subtract: false,
            half_carry: (a & 0x0f) + (v & 0x0f) + carry_in(carry) > 0x0f,
            carry: a + v + carry_in(carry) > 0xff,
        },
    )
}

/// SUB, SBC and CP: `a` less `v` and the carry-in, modulo 256.
/// Z from the result, N set, H on a borrow from bit 4, C on a borrow.
pub open spec fn spec_sub8(a: u8, v: u8, carry: bool) -> (u8, Flags) {
    let result = ((a - v - carry_in(carry)) % 256) as u8;
    (
        result,
        Flags {
            zero: result == 0,
            subtract: true,
            half_carry: (a & 0x0f) < (v & 0x0f) + carry_in(carry),
            carry: a < v + carry_in(carry),
        },
    )
}

/// AND: Z from the result, H set, N and C clear.
pub open spec fn spec_and8(a: u8, v: u8) -> (u8, Flags) {
    (a & v, Flags { zero: a & v == 0, subtract: false, half_carry: true, carry: false })
}

/// OR: Z from the result, the other flags clear.
pub open spec fn spec_or8(a: u8, v: u8) -> (u8, Flags) {
    (a | v, Flags { zero: a | v == 0, subtract: false, half_carry: false, carry: false })
}

/// XOR: Z from the result, the other flags clear.
pub open spec fn spec_xor8(a: u8, v: u8) -> (u8, Flags) {
    (a ^ v, Flags { zero: a ^ v == 0, subtract: false, half_carry: false, carry: false })
}

/// INC: Z from the result, N clear, H when the low nibble was 0xf, C kept.
pub open spec fn spec_inc8(v: u8, flags: Flags) -> (u8, Flags) {
    let result = ((v + 1) % 256) as u8;
    (
        result,
        Flags {
            zero: result == 0,
            subtract: false,
            half_carry: v & 0x0f == 0x0f,
            carry: flags.carry,
        },
    )
}

/// DEC: Z from the result, N set, H when the low nibble was 0, C kept.
pub open spec fn spec_dec8(v: u8, flags: Flags) -> (u8, Flags) {
    let result = ((v - 1) % 256) as u8;
    (
        result,
        Flags { zero: result == 0, subtract: true, half_carry: v & 0x0f == 0, carry: flags.carry },
    )
}

/// The flags after a rotate or shift: Z from the result, N and H clear, C
/// the bit that left the byte.
pub open spec fn shift_flags(result: u8, out: bool) -> Flags {
    Flags { zero: result == 0, subtract: false, half_carry: false, carry: out }
}

/// RLC: rotate left; bit 7 goes to bit 0 and to C.
pub open spec fn spec_rlc8(v: u8) -> (u8, Flags) {
    let result = (v << 1) | (v >> 7);
    (result, shift_flags(result, v & 0x80 != 0))
}

/// RL: rotate left through the carry.
pub open spec fn spec_rl8(v: u8, carry: bool) -> (u8, Flags) {
    let result = (v << 1) | (if carry { 1u8 } else { 0u8 });
    (result, shift_flags(result, v & 0x80 != 0))
}

/// RRC: rotate right; bit 0 goes to bit 7 and to C.
pub open spec fn spec_rrc8(v: u8) -> (u8, Flags) {
    let result = (v >> 1) | (v << 7);
    (result, shift_flags(result, v & 0x01 != 0))
}

/// RR: rotate right through the carry.
pub open spec fn spec_rr8(v: u8, carry: bool) -> (u8, Flags) {
    let result = (if carry { 0x80u8 } else { 0u8 }) | (v >> 1);
    (result, shift_flags(result, v & 0x01 != 0))
}

/// SLA: shift left; bit 0 becomes 0.
pub open spec fn spec_sla8(v: u8) -> (u8, Flags) {
    let result = v << 1;
    (result, shift_flags(result, v & 0x80 != 0))
}

/// SRA: shift right; the sign bit stays.
pub open spec fn spec_sra8(v: u8) -> (u8, Flags) {
    let result = (v & 0x80) | (v >> 1);
    (result, shift_flags(result, v & 0x01 != 0))
}

/// SRL: shift right; bit 7 becomes 0.
pub open spec fn spec_srl8(v: u8) -> (u8, Flags) {
    let result = v >> 1;
    (result, shift_flags(result, v & 0x01 != 0))
}

/// SWAP: exchange the nibbles; C clear.
pub open spec fn spec_swap8(v: u8) -> (u8, Flags) {
    let result = (v >> 4) | (v << 4);
    (result, shift_flags(result, false))
}

/// BIT: Z when the bit is 0, N clear, H set, C kept.
pub open spec fn spec_bit8(bit: u8, v: u8, flags: Flags) -> Flags {
    Flags { zero: v & (1u8 << bit) == 0, subtract: false, half_carry: true, carry: flags.carry }
}

/// RES: the byte with one bit cleared.
pub open spec fn spec_res8(bit: u8, v: u8) -> u8 {
    v & !(1u8 << bit)
}

/// SET: the byte with one bit set.
pub open spec fn spec_set8(bit: u8, v: u8) -> u8 {
    v | (1u8 << bit)
}

/// ADD HL,rr: the sum modulo 65536. Z kept, N clear, H on a carry out of
/// bit 11, C on a carry out of bit 15.
pub open spec fn spec_add16(hl: u16, v: u16, flags: Flags) -> (u16, Flags) {
    (
        ((hl + v) % 0x10000) as u16,
        Flags {
            zero: flags.zero,
            subtract: false,
            half_carry: (hl & 0x0fff) + (v & 0x0fff) > 0x0fff,
            carry: hl + v > 0xffff,
        },
    )
}

/// A byte as a signed offset, extended to 16 bits.
pub open spec fn spec_sign_extend(offset: u8) -> u16 {
    if offset < 0x80 {
        offset as u16
    } else {
        (0xff00 + offset) as u16
    }
}

/// ADD SP,r8 and LD HL,SP+r8: SP plus the signed offset, modulo 65536.
/// Z and N clear; H and C from the sum of the low bytes of SP and of the
/// offset: a carry out of bit 3, a carry out of bit 7.
pub open spec fn spec_add_sp(sp: u16, offset: u8) -> (u16, Flags) {
    let value = spec_sign_extend(offset);
    (
        ((sp + value) % 0x10000) as u16,
        Flags {
            zero: false,
            subtract: false,
            half_carry: (sp & 0x000f) + (value & 0x000f) > 0x000f,
            carry: (sp & 0x00ff) + (value & 0x00ff) > 0x00ff,
        },
    )
}

/// What DAA adds to A: 0x60 for the high digit, 0x06 for the low one; after
/// a subtraction it takes them away.
pub open spec fn daa_offset(a: u8, flags: Flags) -> int {
    if !flags.subtract {
        (if flags.carry || a > 0x99 { 0x60int } else { 0 }) + (if flags.half_carry || (a & 0x0f)
            > 0x09 { 0x06int } else { 0 })
    } else {
        -((if flags.carry { 0x60int } else { 0 }) + (if flags.half_carry { 0x06int } else { 0 }))
    }
}

/// DAA: A adjusted to two decimal digits. Z from the result, N kept, H
/// clear; C set when the high digit was adjusted.
pub open spec fn spec_daa8(a: u8, flags: Flags) -> (u8, Flags) {
    let result = ((a + daa_offset(a, flags)) % 256) as u8;
    (
        result,
        Flags {
            zero: result == 0,
            subtract: flags.subtract,
            half_carry: false,
            carry: flags.carry || (!flags.subtract && a > 0x99),
        },
    )
}

/// CPL: every bit of A flipped; N and H set, Z and C kept.
pub open spec fn spec_cpl8(a: u8, flags: Flags) -> (u8, Flags) {
    (a ^ 0xff, Flags { subtract: true, half_carry: true, ..flags })
}

/// SCF: C set, N and H clear, Z kept.
pub open spec fn spec_scf(flags: Flags) -> Flags {
    Flags { subtract: false, half_carry: false, carry: true, ..flags }
}

/// CCF: C flipped, N and H clear, Z kept.
pub open spec fn spec_ccf(flags: Flags) -> Flags {
    Flags { subtract: false, half_carry: false, carry: !flags.carry, ..flags }
}

/// The eight operations on A as bits 5..3 of an opcode number them: ADD,
/// ADC, SUB, SBC, AND, XOR, OR, CP. CP gives the flags of SUB and keeps A.
pub open spec fn spec_alu8(operation: u8, a: u8, v: u8, carry: bool) -> (u8, Flags) {
    if operation % 8 == 0 {
        spec_add8(a, v, false)
    } else if operation % 8 == 1 {
        spec_add8(a, v, carry)
    } else if operation % 8 == 2 {
        spec_sub8(a, v, false)
    } else if operation % 8 == 3 {
        spec_sub8(a, v, carry)
    } else if operation % 8 == 4 {
        spec_and8(a, v)
    } else if operation % 8 == 5 {
        spec_xor8(a, v)
    } else if operation % 8 == 6 {
        spec_or8(a, v)
    } else {
        (a, spec_sub8(a, v, false).1)
    }
}

pub fn add8(a: u8, v: u8, carry: bool) -> (r: (u8, Flags))
    ensures
        r == spec_add8(a, v, carry),
{
    proof {
        lemma_mask8(a);
        lemma_mask8(v);
    }
    let c: u8 = if carry { 1 } else { 0 };
    let result = a.wrapping_add(v).wrapping_add(c);
    (
        result,
        Flags {
            zero: result == 0,
            subtract: false,
            half_carry: (a & 0x0f) + (v & 0x0f) + c > 0x0f,
            carry: (a as u16) + (v as u16) + (c as u16) > 0xff,
        },
    )
}

pub fn sub8(a: u8, v: u8, carry: bool) -> (r: (u8, Flags))
    ensures
        r == spec_sub8(a, v, carry),
        !carry ==> r.1.zero == (a == v),
{
    proof {
        lemma_mask8(a);
        lemma_mask8(v);
    }
    let c: u8 = if carry { 1 } else { 0 };
    let result = a.wrapping_sub(v).wrapping_sub(c);
    (
        result,
        Flags {
            zero: result == 0,
            subtract: true,
            half_carry: (a & 0x0f) < (v & 0x0f) + c,
            carry: (a as u16) < (v as u16) + (c as u16),
        },
    )
}

pub fn and8(a: u8, v: u8) -> (r: (u8, Flags))
    ensures
        r == spec_and8(a, v),
{
    let result = a & v;
    (result, Flags { zero: result == 0, subtract: false, half_carry: true, carry: false })
}

pub fn or8(a: u8, v: u8) -> (r: (u8, Flags))
    ensures
        r == spec_or8(a, v),
{
    let result = a | v;
    (result, Flags { zero: result == 0, subtract: false, half_carry: false, carry: false })
}

pub fn xor8(a: u8, v: u8) -> (r: (u8, Flags))
    ensures
        r == spec_xor8(a, v),
{
    let result = a ^ v;
    (result, Flags { zero: result == 0, subtract: false, half_carry: false, carry: false })
}

pub fn inc8(v: u8, flags: Flags) -> (r: (u8, Flags))
    ensures
        r == spec_inc8(v, flags),
{
    let result = v.wrapping_add(1);
    (
        result,
        Flags {
            zero: result == 0,
            subtract: false,
            half_carry: (v & 0x0f) == 0x0f,
            carry: flags.carry,
        },
    )
}

pub fn dec8(v: u8, flags: Flags) -> (r: (u8, Flags))
    ensures
        r == spec_dec8(v, flags),
{
    let result = v.wrapping_sub(1);
    (
        result,
        Flags {
            zero: result == 0,
            subtract: true,
            half_carry: (v & 0x0f) == 0,
            carry: flags.carry,
        },
    )
}

fn get_shift_flags(result: u8, out: bool) -> (r: Flags)
    ensures
        r == shift_flags(result, out),
{
    Flags { zero: result == 0, subtract: false, half_carry: false, carry: out }
}

pub fn rlc8(v: u8) -> (r: (u8, Flags))
    ensures
        r == spec_rlc8(v),
{
    let result = (v << 1) | (v >> 7);
    (result, get_shift_flags(result, (v & 0x80) != 0))
}

pub fn rl8(v: u8, carry: bool) -> (r: (u8, Flags))
    ensures
        r == spec_rl8(v, carry),
{
    let c: u8 = if carry { 1 } else { 0 };
    let result = (v << 1) | c;
    (result, get_shift_flags(result, (v & 0x80) != 0))
}

pub fn rrc8(v: u8) -> (r: (u8, Flags))
    ensures
        r == spec_rrc8(v),
{
    let result = (v >> 1) | (v << 7);
    (result, get_shift_flags(result, (v & 0x01) != 0))
}

pub fn rr8(v: u8, carry: bool) -> (r: (u8, Flags))
    ensures
        r == spec_rr8(v, carry),
{
    let c: u8 = if carry { 0x80 } else { 0 };
    let result = c | (v >> 1);
    (result, get_shift_flags(result, (v & 0x01) != 0))
}

pub fn sla8(v: u8) -> (r: (u8, Flags))
    ensures
        r == spec_sla8(v),
{
    let result = v << 1;
    (result, get_shift_flags(result, (v & 0x80) != 0))
}

pub fn sra8(v: u8) -> (r: (u8, Flags))
    ensures
        r == spec_sra8(v),
{
    let result = (v & 0x80) | (v >> 1);
    (result, get_shift_flags(result, (v & 0x01) != 0))
}

pub fn srl8(v: u8) -> (r: (u8, Flags))
    ensures
        r == spec_srl8(v),
{
    let result = v >> 1;
    (result, get_shift_flags(result, (v & 0x01) != 0))
}

pub fn swap8(v: u8) -> (r: (u8, Flags))
    ensures
        r == spec_swap8(v),
{
    let result = (v >> 4) | (v << 4);
    (result, get_shift_flags(result, false))
}

pub fn bit8(bit: u8, v: u8, flags: Flags) -> (r: Flags)
    requires
        bit <= 7,
    ensures
        r == spec_bit8(bit, v, flags),
{
    Flags { zero: (v & (1u8 << bit)) == 0, subtract: false, half_carry: true, carry: flags.carry }
}

pub fn res8(bit: u8, v: u8) -> (r: u8)
    requires
        bit <= 7,
    ensures
        r == spec_res8(bit, v),
{
    v & !(1u8 << bit)
}

pub fn set8(bit: u8, v: u8) -> (r: u8)
    requires
        bit <= 7,
    ensures
        r == spec_set8(bit, v),
{
    v | (1u8 << bit)
}

pub fn add16(hl: u16, v: u16, flags: Flags) -> (r: (u16, Flags))
    ensures
        r == spec_add16(hl, v, flags),
{
    proof {
        lemma_mask16(hl);
        lemma_mask16(v);
    }
    (
        hl.wrapping_add(v),
        Flags {
            zero: flags.zero,
            subtract: false,
            half_carry: (hl & 0x0fff) + (v & 0x0fff) > 0x0fff,
            carry: (hl as u32) + (v as u32) > 0xffff,
        },
    )
}

pub fn sign_extend(offset: u8) -> (r: u16)
    ensures
        r == spec_sign_extend(offset),
{
    if offset < 0x80 {
        offset as u16
    } else {
        0xff00 + offset as u16
    }
}

pub fn add_sp(sp: u16, offset: u8) -> (r: (u16, Flags))
    ensures
        r == spec_add_sp(sp, offset),
{
    let value = sign_extend(offset);
    proof {
        lemma_mask16(sp);
        lemma_mask16(value);
    }
    (
        sp.wrapping_add(value),
        Flags {
            zero: false,
            subtract: false,
            half_carry: (sp & 0x000f) + (value & 0x000f) > 0x000f,
            carry: (sp & 0x00ff) + (value & 0x00ff) > 0x00ff,
        },
    )
}

pub fn daa8(a: u8, flags: Flags) -> (r: (u8, Flags))
    ensures
        r == spec_daa8(a, flags),
{
    proof {
        lemma_mask8(a);
    }
    let mut result = a;
    let mut carry = false;
    if !flags.subtract {
        if flags.carry || a > 0x99 {
            result = result.wrapping_add(0x60);
            carry = true;
        }
        if flags.half_carry || (a & 0x0f) > 0x09 {
            result = result.wrapping_add(0x06);
        }
    } else {
        if flags.carry {
            result = result.wrapping_sub(0x60);
            carry = true;
        }
        if flags.half_carry {
            result = result.wrapping_sub(0x06);
        }
    }
    (result, Flags { zero: result == 0, subtract: flags.subtract, half_carry: false, carry })
}

pub fn cpl8(a: u8, flags: Flags) -> (r: (u8, Flags))
    ensures
        r == spec_cpl8(a, flags),
{
    (a ^ 0xff, Flags { subtract: true, half_carry: true, ..flags })
}

pub fn scf(flags: Flags) -> (r: Flags)
    ensures
        r == spec_scf(flags),
{
    Flags { subtract: false, half_carry: false, carry: true, ..flags }
}

pub fn ccf(flags: Flags) -> (r: Flags)
    ensures
        r == spec_ccf(flags),
{
    Flags { subtract: false, half_carry: false, carry: !flags.carry, ..flags }
}

/// SWAP twice gives the byte back.
pub proof fn lemma_swap_swap(v: u8)
    ensures
        spec_swap8(spec_swap8(v).0).0 == v,
{
    lemma_involutions(v);
}

/// CPL twice gives A back.
pub proof fn lemma_cpl_cpl(a: u8, flags: Flags)
    ensures
        spec_cpl8(spec_cpl8(a, flags).0, spec_cpl8(a, flags).1).0 == a,
{
    lemma_involutions(a);
}

/// The result of an addition or a subtraction is zero, and Z set, exactly
/// when the operands say so: a sum that is a multiple of 256, a minuend
/// equal to the subtrahend plus the borrow.
pub proof fn lemma_zero_flag(a: u8, v: u8, carry: bool)
    ensures
        spec_add8(a, v, carry).1.zero == ((a + v + carry_in(carry)) % 256 == 0),
        spec_sub8(a, v, carry).1.zero == (a == v + carry_in(carry) || a + 256 == v + carry_in(
            carry,
        )),
        spec_sub8(a, v, false).1.zero == (a == v),
{
}

} // verus!
