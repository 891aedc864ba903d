//! The register file: seven 8-bit registers, the flag byte, SP and PC, and
//! the paired 16-bit views AF, BC, DE, HL.

use vstd::prelude::*;
use crate::bits::{lemma_high_nibble, lemma_pair};

verus! {

/// The four condition flags. As a byte they sit in bits 7..4 (Zero, Subtract,
/// HalfCarry, Carry); bits 3..0 of that byte are always zero.
#[derive(Clone, Copy, Debug, PartialEq, Eq, Structural)]
pub struct Flags {
    pub zero: bool,
    pub subtract: bool,
    pub half_carry: bool,
    pub carry: bool,
}

impl Flags {
    /// The flag byte: each set flag contributes its bit.
    pub open spec fn spec_bits(self) -> u8 {
        ((if self.zero { 0x80int } else { 0 }) + (if self.subtract { 0x40int } else { 0 }) + (
        if self.half_carry { 0x20int } else { 0 }) + (if self.carry { 0x10int } else { 0 })) as u8
    }

    /// The flags that a byte holds in its high nibble.
    pub open spec fn spec_from_bits_truncate(bits: u8) -> Flags {
        Flags {
            zero: bits & 0x80 != 0,
            subtract: bits & 0x40 != 0,
            half_carry: bits & 0x20 != 0,
            carry: bits & 0x10 != 0,
        }
    }

    pub fn empty() -> (r: Flags)
        ensures
            r == (Flags { zero: false, subtract: false, half_carry: false, carry: false }),
            r.spec_bits() == 0,
    {
        Flags { zero: false, subtract: false, half_carry: false, carry: false }
    }

    pub fn bits(&self) -> (r: u8)
        ensures
            r == self.spec_bits(),
            r & 0x0f == 0,
    {
        let z: u8 = if self.zero { 0x80 } else { 0 };
        let n: u8 = if self.subtract { 0x40 } else { 0 };
        let h: u8 = if self.half_carry { 0x20 } else { 0 };
        let c: u8 = if self.carry { 0x10 } else { 0 };
        let r: u8 = z + n + h + c;
        proof {
            lemma_high_nibble(r);
        }
        r
    }

    pub fn from_bits_truncate(bits: u8) -> (r: Flags)
        ensures
            r == Flags::spec_from_bits_truncate(bits),
            r.spec_bits() == bits & 0xf0,
    {
        proof {
            lemma_high_nibble(bits);
        }
        Flags {
            zero: bits & 0x80 != 0,
            subtract: bits & 0x40 != 0,
            half_carry: bits & 0x20 != 0,
            carry: bits & 0x10 != 0,
        }
    }

    /// Reading the flags of a byte and packing them again keeps exactly the
    /// high nibble of that byte.
    pub proof fn lemma_bits_of_from_bits(bits: u8)
        ensures
            Flags::spec_from_bits_truncate(bits).spec_bits() == bits & 0xf0,
    {
        lemma_high_nibble(bits);
    }

    /// Packing flags and reading them back loses nothing.
    pub proof fn lemma_from_bits_of_bits(f: Flags)
        ensures
            Flags::spec_from_bits_truncate(f.spec_bits()) == f,
            f.spec_bits() & 0x0f == 0,
    {
        let b = f.spec_bits();
        lemma_high_nibble(b);
        assert(b % 16 == 0);
        assert(b & 0xf0 == b) by (bit_vector)
            requires
                b % 16 == 0,
        ;
        assert(Flags::spec_from_bits_truncate(b).spec_bits() == b);
    }
}

/// The 16-bit register views.
#[derive(Clone, Copy, Debug, PartialEq, Eq, Structural)]
pub enum Reg16 {
    AF,
    BC,
    DE,
    HL,
    SP,
}

#[derive(Clone, Copy, Debug, PartialEq, Eq, Structural)]
pub struct Registers {
    pub pc: u16,
    pub sp: u16,
    pub a: u8,
    pub b: u8,
    pub c: u8,
    pub d: u8,
    pub e: u8,
    pub f: Flags,
    pub h: u8,
    pub l: u8,
}

/// High byte and low byte side by side.
pub open spec fn pair(hi: u8, lo: u8) -> u16 {
    ((hi as u16) << 8) | (lo as u16)
}

impl Registers {
    pub open spec fn spec_new() -> Registers {
        Registers {
            pc: 0,
            sp: 0,
            a: 0,
            b: 0,
            c: 0,
            d: 0,
            e: 0,
            f: Flags { zero: false, subtract: false, half_carry: false, carry: false },
            h: 0,
            l: 0,
        }
    }

    pub open spec fn spec_read16(self, reg: Reg16) -> u16 {
        match reg {
            Reg16::AF => pair(self.a, self.f.spec_bits()),
            Reg16::BC => pair(self.b, self.c),
            Reg16::DE => pair(self.d, self.e),
            Reg16::HL => pair(self.h, self.l),
            Reg16::SP => self.sp,
        }
    }

    pub open spec fn spec_write16(self, reg: Reg16, value: u16) -> Registers {
        match reg {
            Reg16::AF => Registers {
                a: (value >> 8) as u8,
                f: Flags::spec_from_bits_truncate(value as u8),
                ..self
            },
            Reg16::BC => Registers { b: (value >> 8) as u8, c: value as u8, ..self },
            Reg16::DE => Registers { d: (value >> 8) as u8, e: value as u8, ..self },
            Reg16::HL => Registers { h: (value >> 8) as u8, l: value as u8, ..self },
            Reg16::SP => Registers { sp: value, ..self },
        }
    }

    pub fn new() -> (r: Registers)
        ensures
            r == Registers::spec_new(),
    {
        Registers {
            pc: 0,
            sp: 0,
            a: 0,
            b: 0,
            c: 0,
            d: 0,
            e: 0,
            f: Flags::empty(),
            h: 0,
            l: 0,
        }
    }

    /// Reads a pair as high:low. The low nibble of AF is always zero.
    pub fn read16(&self, reg: Reg16) -> (r: u16)
        ensures
            r == self.spec_read16(reg),
            reg == Reg16::AF ==> r & 0x000f == 0,
    {
        proof {
            Registers::lemma_af_low_nibble(*self);
        }
        match reg {
            Reg16::AF => ((self.a as u16) << 8) | self.f.bits() as u16,
            Reg16::BC => ((self.b as u16) << 8) | self.c as u16,
            Reg16::DE => ((self.d as u16) << 8) | self.e as u16,
            Reg16::HL => ((self.h as u16) << 8) | self.l as u16,
            Reg16::SP => self.sp,
        }
    }

    /// Writes a pair. A write to AF keeps only the top nibble of F.
    pub fn write16(&mut self, reg: Reg16, value: u16)
        ensures
            *final(self) == old(self).spec_write16(reg, value),
    {
        match reg {
            Reg16::AF => {
                self.a = (value >> 8) as u8;
                self.f = Flags::from_bits_truncate(value as u8);
            },
            Reg16::BC => {
                self.b = (value >> 8) as u8;
                self.c = value as u8;
            },
            Reg16::DE => {
                self.d = (value >> 8) as u8;
                self.e = value as u8;
            },
            Reg16::HL => {
                self.h = (value >> 8) as u8;
                self.l = value as u8;
            },
            Reg16::SP => {
                self.sp = value;
            },
        }
    }

    /// The registers with one pair replaced.
    pub fn with16(&self, reg: Reg16, value: u16) -> (r: Registers)
        ensures
            r == self.spec_write16(reg, value),
    {
        let mut r = *self;
        r.write16(reg, value);
        r
    }

    /// Whatever the registers hold, AF reads back with a zero low nibble.
    pub proof fn lemma_af_low_nibble(regs: Registers)
        ensures
            regs.spec_read16(Reg16::AF) & 0x000f == 0,
    {
        let f = regs.f.spec_bits();
        Flags::lemma_from_bits_of_bits(regs.f);
        lemma_pair(regs.a, f, 0);
        assert((f & 0x0f) as u16 == 0);
    }

    /// A pair that was written reads back unchanged, except that AF loses
    /// the low nibble of F.
    pub proof fn lemma_read_after_write(regs: Registers, reg: Reg16, value: u16)
        ensures
            regs.spec_write16(reg, value).spec_read16(reg) == (if reg == Reg16::AF {
                value & 0xfff0
            } else {
                value
            }),
    {
        lemma_pair(0, 0, value);
        if reg == Reg16::AF {
            Flags::lemma_bits_of_from_bits(value as u8);
            let lo = (value as u8) & 0xf0;
            assert(((((value >> 8) as u8) as u16) << 8) | (((value as u8) & 0xf0) as u16) == value
                & 0xfff0) by (bit_vector);
        }
    }

    /// Writing back the pair that was read changes nothing.
    pub proof fn lemma_write_after_read(regs: Registers, reg: Reg16)
        ensures
            regs.spec_write16(reg, regs.spec_read16(reg)) == regs,
    {
        lemma_pair(regs.a, regs.f.spec_bits(), 0);
        lemma_pair(regs.b, regs.c, 0);
        lemma_pair(regs.d, regs.e, 0);
        lemma_pair(regs.h, regs.l, 0);
        Flags::lemma_from_bits_of_bits(regs.f);
    }
}

} // verus!
