//! The CPU: register file, arithmetic and the instruction engine that
//! drives the bus.

pub mod alu;
pub mod laws;
pub mod registers;

use vstd::prelude::*;
use crate::bus::{Bus, BusView};
use crate::z80::alu::{
    add16, add8, add_sp, and8, bit8, ccf, cpl8, daa8, dec8, inc8, or8, res8, rl8, rlc8, rr8, rrc8,
    scf, set8, sign_extend, sla8, spec_add16, spec_add8, spec_add_sp, spec_and8, spec_bit8,
    spec_ccf, spec_cpl8, spec_daa8, spec_dec8, spec_inc8, spec_or8, spec_res8, spec_rl8, spec_rlc8,
    spec_rr8, spec_rrc8, spec_scf, spec_set8, spec_sign_extend, spec_sla8, spec_sra8, spec_srl8,
    spec_sub8, spec_swap8, spec_xor8, sra8, srl8, sub8, swap8, xor8,
};
use crate::z80::registers::{pair, Flags, Reg16, Registers};

verus! {

/// Where an 8-bit operand lives: a register, the byte that HL points to, or
/// the byte behind the opcode.
#[derive(Clone, Copy, Debug, PartialEq, Eq, Structural)]
pub enum AddressingMode {
    A,
    B,
    C,
    D,
    E,
    H,
    L,
    HLP,
    IMM,
}

/// The condition of a jump, call or return.
#[derive(Clone, Copy, Debug, PartialEq, Eq, Structural)]
pub enum Cond {
    NONE,
    C,
    NC,
    Z,
    NZ,
}

/// Why the CPU could not go on.
#[derive(Clone, Copy, Debug, PartialEq, Eq, Structural)]
pub enum CpuError {
    /// The byte fetched as an opcode is none of the instruction set.
    UnknownOpcode(u8),
}

/// What the CPU itself holds.
#[derive(Clone, Copy, Debug, PartialEq, Eq, Structural)]
pub struct CpuState {
    pub regs: Registers,
    /// The interrupt master enable.
    pub ime: bool,
    pub halt: bool,
    /// Instruction boundaries until an EI takes effect; 0 when none is
    /// pending.
    pub ei_delay: u8,
}

/// The operand that the three low bits of an opcode name.
pub open spec fn spec_operand(code: u8) -> AddressingMode {
    if code % 8 == 0 {
        AddressingMode::B
    } else if code % 8 == 1 {
        AddressingMode::C
    } else if code % 8 == 2 {
        AddressingMode::D
    } else if code % 8 == 3 {
        AddressingMode::E
    } else if code % 8 == 4 {
        AddressingMode::H
    } else if code % 8 == 5 {
        AddressingMode::L
    } else if code % 8 == 6 {
        AddressingMode::HLP
    } else {
        AddressingMode::A
    }
}

/// The register pair that two bits of an opcode name; the last one is SP,
/// or AF for PUSH and POP.
pub open spec fn spec_pair_of(code: u8, stack: bool) -> Reg16 {
    if code % 4 == 0 {
        Reg16::BC
    } else if code % 4 == 1 {
        Reg16::DE
    } else if code % 4 == 2 {
        Reg16::HL
    } else if stack {
        Reg16::AF
    } else {
        Reg16::SP
    }
}

/// The condition that two bits of an opcode name.
pub open spec fn spec_cond_of(code: u8) -> Cond {
    if code % 4 == 0 {
        Cond::NZ
    } else if code % 4 == 1 {
        Cond::Z
    } else if code % 4 == 2 {
        Cond::NC
    } else {
        Cond::C
    }
}

/// Whether a byte is an opcode of the instruction set. Eleven bytes of the
/// last quarter are not.
pub open spec fn spec_opcode_defined(opcode: u8) -> bool {
    opcode != 0xd3 && opcode != 0xdb && opcode != 0xdd && opcode != 0xe3 && opcode != 0xe4
        && opcode != 0xeb && opcode != 0xec && opcode != 0xed && opcode != 0xf4 && opcode != 0xfc
        && opcode != 0xfd
}

/// The lowest-numbered bit among the five interrupt bits of `status`, as a
/// mask; 0 when none is set.
pub open spec fn spec_first_interrupt(status: u8) -> u8 {
    if status & 0x01 != 0 {
        0x01
    } else if status & 0x02 != 0 {
        0x02
    } else if status & 0x04 != 0 {
        0x04
    } else if status & 0x08 != 0 {
        0x08
    } else if status & 0x10 != 0 {
        0x10
    } else {
        0
    }
}

/// The fixed address at which an interrupt is served: VBlank 0x40, STAT
/// 0x48, Timer 0x50, Serial 0x58, Joypad 0x60.
pub open spec fn spec_vector(bit: u8) -> u16 {
    if bit == 0x01 {
        0x40
    } else if bit == 0x02 {
        0x48
    } else if bit == 0x04 {
        0x50
    } else if bit == 0x08 {
        0x58
    } else {
        0x60
    }
}

pub fn operand(code: u8) -> (r: AddressingMode)
    ensures
        r == spec_operand(code),
        r != AddressingMode::IMM,
{
    match code % 8 {
        0 => AddressingMode::B,
        1 => AddressingMode::C,
        2 => AddressingMode::D,
        3 => AddressingMode::E,
        4 => AddressingMode::H,
        5 => AddressingMode::L,
        6 => AddressingMode::HLP,
        _ => AddressingMode::A,
    }
}

pub fn pair_of(code: u8, stack: bool) -> (r: Reg16)
    ensures
        r == spec_pair_of(code, stack),
{
    match code % 4 {
        0 => Reg16::BC,
        1 => Reg16::DE,
        2 => Reg16::HL,
        _ => if stack {
            Reg16::AF
        } else {
            Reg16::SP
        },
    }
}

pub fn cond_of(code: u8) -> (r: Cond)
    ensures
        r == spec_cond_of(code),
{
    match code % 4 {
        0 => Cond::NZ,
        1 => Cond::Z,
        2 => Cond::NC,
        _ => Cond::C,
    }
}

pub fn opcode_defined(opcode: u8) -> (r: bool)
    ensures
        r == spec_opcode_defined(opcode),
{
    match opcode {
        0xd3 | 0xdb | 0xdd | 0xe3 | 0xe4 | 0xeb | 0xec | 0xed | 0xf4 | 0xfc | 0xfd => false,
        _ => true,
    }
}

fn first_interrupt(status: u8) -> (r: u8)
    ensures
        r == spec_first_interrupt(status),
{
    if (status & 0x01) != 0 {
        0x01
    } else if (status & 0x02) != 0 {
        0x02
    } else if (status & 0x04) != 0 {
        0x04
    } else if (status & 0x08) != 0 {
        0x08
    } else if (status & 0x10) != 0 {
        0x10
    } else {
        0
    }
}

fn vector(bit: u8) -> (r: u16)
    ensures
        r == spec_vector(bit),
{
    match bit {
        0x01 => 0x40,
        0x02 => 0x48,
        0x04 => 0x50,
        0x08 => 0x58,
        _ => 0x60,
    }
}

/// The whole machine as data: the CPU and everything behind its bus.
pub struct Z80View {
    pub bus: BusView,
    pub cpu: CpuState,
}

impl Z80View {
    pub open spec fn wf(self) -> bool {
        self.bus.wf()
    }

    /// The machine around a bus, before reset.
    pub open spec fn init(bus: BusView) -> Z80View {
        Z80View {
            bus,
            cpu: CpuState { regs: Registers::spec_new(), ime: false, halt: false, ei_delay: 0 },
        }
    }

    /// Reset: PC at 0, interrupts on, not halted.
    pub open spec fn reset(self) -> Z80View {
        self.with_cpu(
            CpuState {
                regs: Registers { pc: 0, ..self.cpu.regs },
                ime: true,
                halt: false,
                ..self.cpu
            },
        )
    }

    pub open spec fn with_bus(self, bus: BusView) -> Z80View {
        Z80View { bus, ..self }
    }

    pub open spec fn with_cpu(self, cpu: CpuState) -> Z80View {
        Z80View { cpu, ..self }
    }

    pub open spec fn with_regs(self, regs: Registers) -> Z80View {
        Z80View { cpu: CpuState { regs, ..self.cpu }, ..self }
    }

    /// One machine cycle without a memory access.
    pub open spec fn tick(self) -> Z80View {
        self.with_bus(self.bus.tick())
    }

    /// A memory read: one machine cycle, then the byte.
    pub open spec fn read8(self, address: u16) -> (Z80View, u8) {
        let read = self.bus.tick().read(address);
        (self.with_bus(read.0), read.1)
    }

    /// A memory write: one machine cycle, then the byte.
    pub open spec fn write8(self, address: u16, value: u8) -> Z80View {
        self.with_bus(self.bus.tick().write(address, value))
    }

    /// Two reads, the low byte first.
    #[verifier::opaque]
    pub open spec fn read16(self, address: u16) -> (Z80View, u16) {
        let (s, lo) = self.read8(address);
        let (s, hi) = s.read8(((address + 1) % 0x10000) as u16);
        (s, pair(hi, lo))
    }

    /// Two writes, the low byte first.
    #[verifier::opaque]
    pub open spec fn write16(self, address: u16, value: u16) -> Z80View {
        self.write8(address, value as u8).write8(
            ((address + 1) % 0x10000) as u16,
            (value >> 8) as u8,
        )
    }

    /// PC moves one byte on; gives the address it stood at.
    pub open spec fn imm(self) -> (Z80View, u16) {
        (
            self.with_regs(
                Registers { pc: ((self.cpu.regs.pc + 1) % 0x10000) as u16, ..self.cpu.regs },
            ),
            self.cpu.regs.pc,
        )
    }

    /// PC moves two bytes on; gives the address it stood at.
    pub open spec fn imm16(self) -> (Z80View, u16) {
        (
            self.with_regs(
                Registers { pc: ((self.cpu.regs.pc + 2) % 0x10000) as u16, ..self.cpu.regs },
            ),
            self.cpu.regs.pc,
        )
    }

    /// The byte at PC, with PC moved behind it.
    #[verifier::opaque]
    pub open spec fn fetch8(self) -> (Z80View, u8) {
        let (s, address) = self.imm();
        s.read8(address)
    }

    /// The two bytes at PC, low byte first, with PC moved behind them.
    #[verifier::opaque]
    pub open spec fn fetch16(self) -> (Z80View, u16) {
        let (s, address) = self.imm16();
        s.read16(address)
    }

    /// The value of a register operand.
    pub open spec fn register(self, mode: AddressingMode) -> u8 {
        match mode {
            AddressingMode::A => self.cpu.regs.a,
            AddressingMode::B => self.cpu.regs.b,
            AddressingMode::C => self.cpu.regs.c,
            AddressingMode::D => self.cpu.regs.d,
            AddressingMode::E => self.cpu.regs.e,
            AddressingMode::H => self.cpu.regs.h,
            _ => self.cpu.regs.l,
        }
    }

    /// The registers with a register operand replaced.
    pub open spec fn with_register(self, mode: AddressingMode, value: u8) -> Registers {
        match mode {
            AddressingMode::A => Registers { a: value, ..self.cpu.regs },
            AddressingMode::B => Registers { b: value, ..self.cpu.regs },
            AddressingMode::C => Registers { c: value, ..self.cpu.regs },
            AddressingMode::D => Registers { d: value, ..self.cpu.regs },
            AddressingMode::E => Registers { e: value, ..self.cpu.regs },
            AddressingMode::H => Registers { h: value, ..self.cpu.regs },
            _ => Registers { l: value, ..self.cpu.regs },
        }
    }

    /// An operand read: a register costs nothing, (HL) is a memory read,
    /// an immediate is fetched at PC.
    #[verifier::opaque]
    pub open spec fn read_mode(self, mode: AddressingMode) -> (Z80View, u8) {
        match mode {
            AddressingMode::HLP => self.read8(self.cpu.regs.spec_read16(Reg16::HL)),
            AddressingMode::IMM => self.fetch8(),
            _ => (self, self.register(mode)),
        }
    }

    /// An operand write, to a register or to (HL).
    #[verifier::opaque]
    pub open spec fn write_mode(self, mode: AddressingMode, value: u8) -> Z80View {
        match mode {
            AddressingMode::HLP => self.write8(self.cpu.regs.spec_read16(Reg16::HL), value),
            _ => self.with_regs(self.with_register(mode, value)),
        }
    }

    /// SP moves one byte down and the byte is written there.
    #[verifier::opaque]
    pub open spec fn push8(self, value: u8) -> Z80View {
        let sp = ((self.cpu.regs.sp - 1) % 0x10000) as u16;
        self.with_regs(Registers { sp, ..self.cpu.regs }).write8(sp, value)
    }

    /// Two pushes, the high byte first.
    #[verifier::opaque]
    pub open spec fn push16(self, value: u16) -> Z80View {
        self.push8((value >> 8) as u8).push8(value as u8)
    }

    /// The byte at SP is read and SP moves one byte up.
    #[verifier::opaque]
    pub open spec fn pop8(self) -> (Z80View, u8) {
        self.with_regs(
            Registers { sp: ((self.cpu.regs.sp + 1) % 0x10000) as u16, ..self.cpu.regs },
        ).read8(self.cpu.regs.sp)
    }

    /// Two pops, the low byte first.
    #[verifier::opaque]
    pub open spec fn pop16(self) -> (Z80View, u16) {
        let (s, lo) = self.pop8();
        let (s, hi) = s.pop8();
        (s, pair(hi, lo))
    }

    pub open spec fn condition_met(self, cond: Cond) -> bool {
        match cond {
            Cond::NONE => true,
            Cond::C => self.cpu.regs.f.carry,
            Cond::NC => !self.cpu.regs.f.carry,
            Cond::Z => self.cpu.regs.f.zero,
            Cond::NZ => !self.cpu.regs.f.zero,
        }
    }

    // ----- the instructions -----

    /// HALT: instruction fetch stops until an interrupt is pending.
    #[verifier::opaque]
    pub open spec fn halt(self) -> Z80View {
        self.with_cpu(CpuState { halt: true, ..self.cpu })
    }

    /// STOP: takes its operand byte and does nothing else.
    #[verifier::opaque]
    pub open spec fn stop(self) -> Z80View {
        self.fetch8().0
    }

    /// DI: interrupts off at once; a pending EI is dropped.
    #[verifier::opaque]
    pub open spec fn di(self) -> Z80View {
        self.with_cpu(CpuState { ime: false, ei_delay: 0, ..self.cpu })
    }

    /// EI: interrupts on once the instruction after this one is done.
    #[verifier::opaque]
    pub open spec fn ei(self) -> Z80View {
        self.with_cpu(CpuState { ei_delay: 2, ..self.cpu })
    }

    /// CPL: flips every bit of A.
    #[verifier::opaque]
    pub open spec fn cpl(self) -> Z80View {
        let r = spec_cpl8(self.cpu.regs.a, self.cpu.regs.f);
        self.with_regs(Registers { a: r.0, f: r.1, ..self.cpu.regs })
    }

    /// SCF: sets the carry.
    #[verifier::opaque]
    pub open spec fn scf(self) -> Z80View {
        self.with_regs(Registers { f: spec_scf(self.cpu.regs.f), ..self.cpu.regs })
    }

    /// CCF: flips the carry.
    #[verifier::opaque]
    pub open spec fn ccf(self) -> Z80View {
        self.with_regs(Registers { f: spec_ccf(self.cpu.regs.f), ..self.cpu.regs })
    }

    /// DAA: adjusts A to two decimal digits after an addition or a
    /// subtraction.
    #[verifier::opaque]
    pub open spec fn daa(self) -> Z80View {
        let r = spec_daa8(self.cpu.regs.a, self.cpu.regs.f);
        self.with_regs(Registers { a: r.0, f: r.1, ..self.cpu.regs })
    }

    /// LD (a16),SP: stores SP, low byte first.
    #[verifier::opaque]
    pub open spec fn ld_nn_sp(self) -> Z80View {
        let (s, address) = self.fetch16();
        s.write16(address, s.cpu.regs.sp)
    }

    /// ADD SP,r8; two more machine cycles.
    #[verifier::opaque]
    pub open spec fn add_sp_n(self) -> Z80View {
        let (s, offset) = self.fetch8();
        let r = spec_add_sp(s.cpu.regs.sp, offset);
        let s = s.with_regs(Registers { sp: r.0, f: r.1, ..s.cpu.regs });
        let s = s.tick();
        s.tick()
    }

    /// LD SP,HL; one more machine cycle.
    #[verifier::opaque]
    pub open spec fn ld_sp_hl(self) -> Z80View {
        let s = self.with_regs(
            Registers { sp: self.cpu.regs.spec_read16(Reg16::HL), ..self.cpu.regs },
        );
        s.tick()
    }

    /// LD HL,SP+r8; one more machine cycle.
    #[verifier::opaque]
    pub open spec fn ld_hl_sp_n(self) -> Z80View {
        let (s, offset) = self.fetch8();
        let r = spec_add_sp(s.cpu.regs.sp, offset);
        let s = s.with_regs(Registers { f: r.1, ..s.cpu.regs.spec_write16(Reg16::HL, r.0) });
        s.tick()
    }

    /// RST n: pushes PC and jumps to a fixed address; one more machine cycle.
    #[verifier::opaque]
    pub open spec fn rst(self, address: u16) -> Z80View {
        let s = self.push16(self.cpu.regs.pc);
        let s = s.with_regs(Registers { pc: address, ..s.cpu.regs });
        s.tick()
    }

    /// JP cc,a16; one more machine cycle when taken.
    #[verifier::opaque]
    pub open spec fn jp(self, cond: Cond) -> Z80View {
        let (s, dest) = self.fetch16();
        if s.condition_met(cond) {
            let s = s.with_regs(Registers { pc: dest, ..s.cpu.regs });
            s.tick()
        } else {
            s
        }
    }

    /// JP HL: jumps to where HL points.
    #[verifier::opaque]
    pub open spec fn jp_hl(self) -> Z80View {
        self.with_regs(Registers { pc: self.cpu.regs.spec_read16(Reg16::HL), ..self.cpu.regs })
    }

    /// ADD HL,rr; one more machine cycle.
    #[verifier::opaque]
    pub open spec fn add_hl_nn(self, reg: Reg16) -> Z80View {
        let hl = self.cpu.regs.spec_read16(Reg16::HL);
        let value = self.cpu.regs.spec_read16(reg);
        let r = spec_add16(hl, value, self.cpu.regs.f);
        let s = self.with_regs(Registers { f: r.1, ..self.cpu.regs.spec_write16(Reg16::HL, r.0) });
        s.tick()
    }

    /// ADC A,x: A plus the operand plus the carry.
    #[verifier::opaque]
    pub open spec fn adc(self, mode: AddressingMode) -> Z80View {
        let (s, value) = self.read_mode(mode);
        let r = spec_add8(s.cpu.regs.a, value, s.cpu.regs.f.carry);
        s.with_regs(Registers { a: r.0, f: r.1, ..s.cpu.regs })
    }

    /// SBC A,x: A less the operand and the carry.
    #[verifier::opaque]
    pub open spec fn sbc(self, mode: AddressingMode) -> Z80View {
        let (s, value) = self.read_mode(mode);
        let r = spec_sub8(s.cpu.regs.a, value, s.cpu.regs.f.carry);
        s.with_regs(Registers { a: r.0, f: r.1, ..s.cpu.regs })
    }

    /// ADD A,x: A plus the operand.
    #[verifier::opaque]
    pub open spec fn add(self, mode: AddressingMode) -> Z80View {
        let (s, value) = self.read_mode(mode);
        let r = spec_add8(s.cpu.regs.a, value, false);
        s.with_regs(Registers { a: r.0, f: r.1, ..s.cpu.regs })
    }

    /// SUB x: A less the operand.
    #[verifier::opaque]
    pub open spec fn sub(self, mode: AddressingMode) -> Z80View {
        let (s, value) = self.read_mode(mode);
        let r = spec_sub8(s.cpu.regs.a, value, false);
        s.with_regs(Registers { a: r.0, f: r.1, ..s.cpu.regs })
    }

    /// CP x: the flags of SUB x; A stays.
    #[verifier::opaque]
    pub open spec fn cp(self, mode: AddressingMode) -> Z80View {
        let (s, value) = self.read_mode(mode);
        let r = spec_sub8(s.cpu.regs.a, value, false);
        s.with_regs(Registers { f: r.1, ..s.cpu.regs })
    }

    /// AND x: A and the operand, bit by bit.
    #[verifier::opaque]
    pub open spec fn and(self, mode: AddressingMode) -> Z80View {
        let (s, value) = self.read_mode(mode);
        let r = spec_and8(s.cpu.regs.a, value);
        s.with_regs(Registers { a: r.0, f: r.1, ..s.cpu.regs })
    }

    /// OR x: A or the operand, bit by bit.
    #[verifier::opaque]
    pub open spec fn or(self, mode: AddressingMode) -> Z80View {
        let (s, value) = self.read_mode(mode);
        let r = spec_or8(s.cpu.regs.a, value);
        s.with_regs(Registers { a: r.0, f: r.1, ..s.cpu.regs })
    }

    /// XOR x: A exclusive-or the operand, bit by bit.
    #[verifier::opaque]
    pub open spec fn xor(self, mode: AddressingMode) -> Z80View {
        let (s, value) = self.read_mode(mode);
        let r = spec_xor8(s.cpu.regs.a, value);
        s.with_regs(Registers { a: r.0, f: r.1, ..s.cpu.regs })
    }

    /// POP rr. A pop into AF keeps only the top nibble of F.
    #[verifier::opaque]
    pub open spec fn pop_nn(self, reg: Reg16) -> Z80View {
        let (s, value) = self.pop16();
        s.with_regs(s.cpu.regs.spec_write16(reg, value))
    }

    /// PUSH rr; one machine cycle before the two writes.
    #[verifier::opaque]
    pub open spec fn push_nn(self, reg: Reg16) -> Z80View {
        let s = self.tick();
        s.push16(s.cpu.regs.spec_read16(reg))
    }

    /// LD x,y: copies one operand into another.
    #[verifier::opaque]
    pub open spec fn ld_n_n(self, dest: AddressingMode, src: AddressingMode) -> Z80View {
        let (s, value) = self.read_mode(src);
        s.write_mode(dest, value)
    }

    /// RET cc: the conditional forms take one machine cycle to test, and a
    /// return that is taken one more after the pop.
    #[verifier::opaque]
    pub open spec fn ret(self, cond: Cond) -> Z80View {
        let s = if cond != Cond::NONE {
            self.tick()
        } else {
            self
        };
        if s.condition_met(cond) {
            let (s, pc) = s.pop16();
            let s = s.with_regs(Registers { pc, ..s.cpu.regs });
            s.tick()
        } else {
            s
        }
    }

    /// RETI: interrupts on at once, then RET.
    #[verifier::opaque]
    pub open spec fn reti(self) -> Z80View {
        let s = self.with_cpu(CpuState { ime: true, ..self.cpu });
        let (s, pc) = s.pop16();
        let s = s.with_regs(Registers { pc, ..s.cpu.regs });
        s.tick()
    }

    /// INC x: the operand plus one.
    #[verifier::opaque]
    pub open spec fn inc(self, mode: AddressingMode) -> Z80View {
        let (s, value) = self.read_mode(mode);
        let r = spec_inc8(value, s.cpu.regs.f);
        let s = s.write_mode(mode, r.0);
        s.with_regs(Registers { f: r.1, ..s.cpu.regs })
    }

    /// DEC x: the operand less one.
    #[verifier::opaque]
    pub open spec fn dec(self, mode: AddressingMode) -> Z80View {
        let (s, value) = self.read_mode(mode);
        let r = spec_dec8(value, s.cpu.regs.f);
        let s = s.write_mode(mode, r.0);
        s.with_regs(Registers { f: r.1, ..s.cpu.regs })
    }

    /// INC rr; one more machine cycle. No flag changes.
    #[verifier::opaque]
    pub open spec fn inc16(self, reg: Reg16) -> Z80View {
        let value = self.cpu.regs.spec_read16(reg);
        let s = self.with_regs(self.cpu.regs.spec_write16(reg, ((value + 1) % 0x10000) as u16));
        s.tick()
    }

    /// DEC rr; one more machine cycle. No flag changes.
    #[verifier::opaque]
    pub open spec fn dec16(self, reg: Reg16) -> Z80View {
        let value = self.cpu.regs.spec_read16(reg);
        let s = self.with_regs(self.cpu.regs.spec_write16(reg, ((value - 1) % 0x10000) as u16));
        s.tick()
    }

    /// LD x,d8: loads the byte behind the opcode.
    #[verifier::opaque]
    pub open spec fn ld_imm(self, mode: AddressingMode) -> Z80View {
        let (s, value) = self.fetch8();
        s.write_mode(mode, value)
    }

    /// LD (rr),A: stores A where the pair points.
    #[verifier::opaque]
    pub open spec fn ld_nn_a(self, reg: Reg16) -> Z80View {
        self.write8(self.cpu.regs.spec_read16(reg), self.cpu.regs.a)
    }

    /// LD A,(rr): loads A from where the pair points.
    #[verifier::opaque]
    pub open spec fn ld_a_nn(self, reg: Reg16) -> Z80View {
        let (s, value) = self.read8(self.cpu.regs.spec_read16(reg));
        s.with_regs(Registers { a: value, ..s.cpu.regs })
    }

    /// LD A,(a16): loads A from the address behind the opcode.
    #[verifier::opaque]
    pub open spec fn ld_a_imm16(self) -> Z80View {
        let (s, address) = self.fetch16();
        let (s, value) = s.read8(address);
        s.with_regs(Registers { a: value, ..s.cpu.regs })
    }

    /// LD (a16),A: stores A at the address behind the opcode.
    #[verifier::opaque]
    pub open spec fn ld_imm16_a(self) -> Z80View {
        let (s, address) = self.fetch16();
        s.write8(address, s.cpu.regs.a)
    }

    /// LD (HL),d8: stores the byte behind the opcode where HL points.
    #[verifier::opaque]
    pub open spec fn ld_hlp_imm(self) -> Z80View {
        let (s, value) = self.fetch8();
        s.write8(s.cpu.regs.spec_read16(Reg16::HL), value)
    }

    /// JR cc,r8: a jump relative to the next instruction; one more machine
    /// cycle when taken.
    #[verifier::opaque]
    pub open spec fn jr(self, cond: Cond) -> Z80View {
        let (s, offset) = self.fetch8();
        if s.condition_met(cond) {
            let target = ((s.cpu.regs.pc + spec_sign_extend(offset)) % 0x10000) as u16;
            let s = s.with_regs(Registers { pc: target, ..s.cpu.regs });
            s.tick()
        } else {
            s
        }
    }

    /// LD rr,d16: loads the two bytes behind the opcode.
    #[verifier::opaque]
    pub open spec fn ld_imm16(self, reg: Reg16) -> Z80View {
        let (s, value) = self.fetch16();
        s.with_regs(s.cpu.regs.spec_write16(reg, value))
    }

    /// LD A,(HL-): loads A from where HL points; HL then counts down.
    #[verifier::opaque]
    pub open spec fn ld_a_hlmp(self) -> Z80View {
        let hl = self.cpu.regs.spec_read16(Reg16::HL);
        let (s, value) = self.read8(hl);
        let loaded = Registers { a: value, ..s.cpu.regs };
        s.with_regs(loaded.spec_write16(Reg16::HL, ((hl - 1) % 0x10000) as u16))
    }

    /// LD A,(HL+): loads A from where HL points; HL then counts up.
    #[verifier::opaque]
    pub open spec fn ld_a_hlpp(self) -> Z80View {
        let hl = self.cpu.regs.spec_read16(Reg16::HL);
        let (s, value) = self.read8(hl);
        let loaded = Registers { a: value, ..s.cpu.regs };
        s.with_regs(loaded.spec_write16(Reg16::HL, ((hl + 1) % 0x10000) as u16))
    }

    /// LD (HL+),A: stores A where HL points; HL then counts up.
    #[verifier::opaque]
    pub open spec fn ld_hlpp_a(self) -> Z80View {
        let hl = self.cpu.regs.spec_read16(Reg16::HL);
        let s = self.write8(hl, self.cpu.regs.a);
        s.with_regs(s.cpu.regs.spec_write16(Reg16::HL, ((hl + 1) % 0x10000) as u16))
    }

    /// LD (HL-),A: stores A where HL points; HL then counts down.
    #[verifier::opaque]
    pub open spec fn ld_hlmp_a(self) -> Z80View {
        let hl = self.cpu.regs.spec_read16(Reg16::HL);
        let s = self.write8(hl, self.cpu.regs.a);
        s.with_regs(s.cpu.regs.spec_write16(Reg16::HL, ((hl - 1) % 0x10000) as u16))
    }

    /// RL x: rotates the operand left through the carry.
    #[verifier::opaque]
    pub open spec fn alu_rl(self, mode: AddressingMode) -> Z80View {
        let (s, value) = self.read_mode(mode);
        let r = spec_rl8(value, s.cpu.regs.f.carry);
        let s = s.write_mode(mode, r.0);
        s.with_regs(Registers { f: r.1, ..s.cpu.regs })
    }

    /// RLC x: rotates the operand left.
    #[verifier::opaque]
    pub open spec fn alu_rlc(self, mode: AddressingMode) -> Z80View {
        let (s, value) = self.read_mode(mode);
        let r = spec_rlc8(value);
        let s = s.write_mode(mode, r.0);
        s.with_regs(Registers { f: r.1, ..s.cpu.regs })
    }

    /// RR x: rotates the operand right through the carry.
    #[verifier::opaque]
    pub open spec fn alu_rr(self, mode: AddressingMode) -> Z80View {
        let (s, value) = self.read_mode(mode);
        let r = spec_rr8(value, s.cpu.regs.f.carry);
        let s = s.write_mode(mode, r.0);
        s.with_regs(Registers { f: r.1, ..s.cpu.regs })
    }

    /// RRC x: rotates the operand right.
    #[verifier::opaque]
    pub open spec fn alu_rrc(self, mode: AddressingMode) -> Z80View {
        let (s, value) = self.read_mode(mode);
        let r = spec_rrc8(value);
        let s = s.write_mode(mode, r.0);
        s.with_regs(Registers { f: r.1, ..s.cpu.regs })
    }

    /// SLA x: shifts the operand left.
    #[verifier::opaque]
    pub open spec fn cb_sla(self, mode: AddressingMode) -> Z80View {
        let (s, value) = self.read_mode(mode);
        let r = spec_sla8(value);
        let s = s.write_mode(mode, r.0);
        s.with_regs(Registers { f: r.1, ..s.cpu.regs })
    }

    /// SRA x: shifts the operand right and keeps its sign.
    #[verifier::opaque]
    pub open spec fn cb_sra(self, mode: AddressingMode) -> Z80View {
        let (s, value) = self.read_mode(mode);
        let r = spec_sra8(value);
        let s = s.write_mode(mode, r.0);
        s.with_regs(Registers { f: r.1, ..s.cpu.regs })
    }

    /// SWAP x: exchanges the nibbles of the operand.
    #[verifier::opaque]
    pub open spec fn cb_swap(self, mode: AddressingMode) -> Z80View {
        let (s, value) = self.read_mode(mode);
        let r = spec_swap8(value);
        let s = s.write_mode(mode, r.0);
        s.with_regs(Registers { f: r.1, ..s.cpu.regs })
    }

    /// SRL x: shifts the operand right.
    #[verifier::opaque]
    pub open spec fn cb_srl(self, mode: AddressingMode) -> Z80View {
        let (s, value) = self.read_mode(mode);
        let r = spec_srl8(value);
        let s = s.write_mode(mode, r.0);
        s.with_regs(Registers { f: r.1, ..s.cpu.regs })
    }

    /// RLA: RL A with Z clear.
    #[verifier::opaque]
    pub open spec fn rla(self) -> Z80View {
        let s = self.alu_rl(AddressingMode::A);
        s.with_regs(Registers { f: Flags { zero: false, ..s.cpu.regs.f }, ..s.cpu.regs })
    }

    /// RLCA: RLC A with Z clear.
    #[verifier::opaque]
    pub open spec fn rlca(self) -> Z80View {
        let s = self.alu_rlc(AddressingMode::A);
        s.with_regs(Registers { f: Flags { zero: false, ..s.cpu.regs.f }, ..s.cpu.regs })
    }

    /// RRA: RR A with Z clear.
    #[verifier::opaque]
    pub open spec fn rra(self) -> Z80View {
        let s = self.alu_rr(AddressingMode::A);
        s.with_regs(Registers { f: Flags { zero: false, ..s.cpu.regs.f }, ..s.cpu.regs })
    }

    /// RRCA: RRC A with Z clear.
    #[verifier::opaque]
    pub open spec fn rrca(self) -> Z80View {
        let s = self.alu_rrc(AddressingMode::A);
        s.with_regs(Registers { f: Flags { zero: false, ..s.cpu.regs.f }, ..s.cpu.regs })
    }

    /// RES b,x: clears one bit of the operand.
    #[verifier::opaque]
    pub open spec fn cb_res(self, bit: u8, mode: AddressingMode) -> Z80View {
        let (s, value) = self.read_mode(mode);
        s.write_mode(mode, spec_res8(bit, value))
    }

    /// SET b,x: sets one bit of the operand.
    #[verifier::opaque]
    pub open spec fn cb_set(self, bit: u8, mode: AddressingMode) -> Z80View {
        let (s, value) = self.read_mode(mode);
        s.write_mode(mode, spec_set8(bit, value))
    }

    /// BIT b,x: tests one bit of the operand.
    #[verifier::opaque]
    pub open spec fn cb_bit(self, bit: u8, mode: AddressingMode) -> Z80View {
        let (s, value) = self.read_mode(mode);
        s.with_regs(Registers { f: spec_bit8(bit, value, s.cpu.regs.f), ..s.cpu.regs })
    }

    /// LDH (a8),A: stores A in the page at 0xff00, at the offset behind the
    /// opcode.
    #[verifier::opaque]
    pub open spec fn ldh_n_a(self) -> Z80View {
        let (s, offset) = self.fetch8();
        s.write8((0xff00 + offset) as u16, s.cpu.regs.a)
    }

    /// LDH A,(a8): loads A from the page at 0xff00, at the offset behind the
    /// opcode.
    #[verifier::opaque]
    pub open spec fn ldh_a_n(self) -> Z80View {
        let (s, offset) = self.fetch8();
        let (s, value) = s.read8((0xff00 + offset) as u16);
        s.with_regs(Registers { a: value, ..s.cpu.regs })
    }

    /// LD A,(C): loads A from the page at 0xff00, at offset C.
    #[verifier::opaque]
    pub open spec fn ld_a_cp(self) -> Z80View {
        let (s, value) = self.read8((0xff00 + self.cpu.regs.c) as u16);
        s.with_regs(Registers { a: value, ..s.cpu.regs })
    }

    /// LD (C),A: stores A in the page at 0xff00, at offset C.
    #[verifier::opaque]
    pub open spec fn ld_cp_a(self) -> Z80View {
        self.write8((0xff00 + self.cpu.regs.c) as u16, self.cpu.regs.a)
    }

    /// CALL cc,a16: when taken, one machine cycle, then the address of the
    /// next instruction is pushed.
    #[verifier::opaque]
    pub open spec fn call(self, cond: Cond) -> Z80View {
        let (s, dest) = self.fetch16();
        if s.condition_met(cond) {
            let s = s.tick();
            let s = s.push16(s.cpu.regs.pc);
            s.with_regs(Registers { pc: dest, ..s.cpu.regs })
        } else {
            s
        }
    }

    /// The dispatch of an interrupt: interrupts off, two machine cycles, PC
    /// pushed, PC at the vector, one more machine cycle.
    #[verifier::opaque]
    pub open spec fn interrupt(self, address: u16) -> Z80View {
        let s = self.with_cpu(CpuState { ime: false, ..self.cpu });
        let s = s.tick();
        let s = s.tick();
        let s = s.push16(s.cpu.regs.pc);
        let s = s.with_regs(Registers { pc: address, ..s.cpu.regs });
        s.tick()
    }

    // ----- decode -----

    /// One of the eight arithmetic and logic operations on A, as bits 5..3
    /// of the opcode number them.
    #[verifier::opaque]
    pub open spec fn alu(self, operation: u8, mode: AddressingMode) -> Z80View {
        if operation % 8 == 0 {
            self.add(mode)
        } else if operation % 8 == 1 {
            self.adc(mode)
        } else if operation % 8 == 2 {
            self.sub(mode)
        } else if operation % 8 == 3 {
            self.sbc(mode)
        } else if operation % 8 == 4 {
            self.and(mode)
        } else if operation % 8 == 5 {
            self.xor(mode)
        } else if operation % 8 == 6 {
            self.or(mode)
        } else {
            self.cp(mode)
        }
    }

    /// One of the eight rotates and shifts, as bits 5..3 of the opcode
    /// behind the prefix number them.
    #[verifier::opaque]
    pub open spec fn shift(self, operation: u8, mode: AddressingMode) -> Z80View {
        if operation % 8 == 0 {
            self.alu_rlc(mode)
        } else if operation % 8 == 1 {
            self.alu_rrc(mode)
        } else if operation % 8 == 2 {
            self.alu_rl(mode)
        } else if operation % 8 == 3 {
            self.alu_rr(mode)
        } else if operation % 8 == 4 {
            self.cb_sla(mode)
        } else if operation % 8 == 5 {
            self.cb_sra(mode)
        } else if operation % 8 == 6 {
            self.cb_swap(mode)
        } else {
            self.cb_srl(mode)
        }
    }

    /// An opcode behind the 0xcb prefix: the operand in bits 2..0; rotates
    /// and shifts in the first quarter, then BIT, RES and SET with the bit
    /// number in bits 5..3.
    #[verifier::opaque]
    pub open spec fn execute_cb(self, opcode: u8) -> Z80View {
        let mode = spec_operand(opcode);
        let number = (opcode / 8) % 8;
        if opcode < 0x40 {
            self.shift(number, mode)
        } else if opcode < 0x80 {
            self.cb_bit(number, mode)
        } else if opcode < 0xc0 {
            self.cb_res(number, mode)
        } else {
            self.cb_set(number, mode)
        }
    }

    /// The prefix 0xcb: the next byte selects the operation.
    #[verifier::opaque]
    pub open spec fn cb_instr(self) -> Z80View {
        let (s, opcode) = self.fetch8();
        s.execute_cb(opcode)
    }

    /// Opcodes 0x00..0x40 whose three low bits are 0: NOP, LD (a16),SP,
    /// STOP and the relative jumps.
    #[verifier::opaque]
    pub open spec fn execute_column_0(self, row: u8) -> Z80View {
        if row == 0 {
            self
        } else if row == 1 {
            self.ld_nn_sp()
        } else if row == 2 {
            self.stop()
        } else if row == 3 {
            self.jr(Cond::NONE)
        } else {
            self.jr(spec_cond_of(row))
        }
    }

    /// Opcodes 0x00..0x40 whose three low bits are 2: the loads between A
    /// and the byte that BC, DE or HL points to.
    #[verifier::opaque]
    pub open spec fn execute_column_2(self, row: u8) -> Z80View {
        if row == 0 {
            self.ld_nn_a(Reg16::BC)
        } else if row == 1 {
            self.ld_a_nn(Reg16::BC)
        } else if row == 2 {
            self.ld_nn_a(Reg16::DE)
        } else if row == 3 {
            self.ld_a_nn(Reg16::DE)
        } else if row == 4 {
            self.ld_hlpp_a()
        } else if row == 5 {
            self.ld_a_hlpp()
        } else if row == 6 {
            self.ld_hlmp_a()
        } else {
            self.ld_a_hlmp()
        }
    }

    /// Opcodes 0x00..0x40 whose three low bits are 7: the rotates of A and
    /// DAA, CPL, SCF, CCF.
    #[verifier::opaque]
    pub open spec fn execute_column_7(self, row: u8) -> Z80View {
        if row == 0 {
            self.rlca()
        } else if row == 1 {
            self.rrca()
        } else if row == 2 {
            self.rla()
        } else if row == 3 {
            self.rra()
        } else if row == 4 {
            self.daa()
        } else if row == 5 {
            self.cpl()
        } else if row == 6 {
            self.scf()
        } else {
            self.ccf()
        }
    }

    /// Opcodes 0x00..0x40, by their three low bits; `row` is the opcode
    /// divided by 8.
    #[verifier::opaque]
    pub open spec fn execute_low(self, opcode: u8) -> Z80View {
        let row = opcode / 8;
        let column = opcode % 8;
        if column == 0 {
            self.execute_column_0(row)
        } else if column == 1 {
            if row % 2 == 0 {
                self.ld_imm16(spec_pair_of(row / 2, false))
            } else {
                self.add_hl_nn(spec_pair_of(row / 2, false))
            }
        } else if column == 2 {
            self.execute_column_2(row)
        } else if column == 3 {
            if row % 2 == 0 {
                self.inc16(spec_pair_of(row / 2, false))
            } else {
                self.dec16(spec_pair_of(row / 2, false))
            }
        } else if column == 4 {
            self.inc(spec_operand(row))
        } else if column == 5 {
            self.dec(spec_operand(row))
        } else if column == 6 {
            if opcode == 0x36 {
                self.ld_hlp_imm()
            } else {
                self.ld_imm(spec_operand(row))
            }
        } else {
            self.execute_column_7(row)
        }
    }

    /// Opcodes 0xc0..=0xff whose three low bits are 0, 1 or 2 and that take
    /// no condition.
    #[verifier::opaque]
    pub open spec fn execute_high_misc(self, opcode: u8) -> Z80View {
        if opcode == 0xe0 {
            self.ldh_n_a()
        } else if opcode == 0xe8 {
            self.add_sp_n()
        } else if opcode == 0xf0 {
            self.ldh_a_n()
        } else if opcode == 0xf8 {
            self.ld_hl_sp_n()
        } else if opcode == 0xc9 {
            self.ret(Cond::NONE)
        } else if opcode == 0xd9 {
            self.reti()
        } else if opcode == 0xe9 {
            self.jp_hl()
        } else if opcode == 0xf9 {
            self.ld_sp_hl()
        } else if opcode == 0xe2 {
            self.ld_cp_a()
        } else if opcode == 0xea {
            self.ld_imm16_a()
        } else if opcode == 0xf2 {
            self.ld_a_cp()
        } else {
            self.ld_a_imm16()
        }
    }

    /// Opcodes 0xc0..=0xff whose three low bits are 3, 4 or 5 and that take
    /// no condition: JP, the prefix, DI, EI and CALL.
    #[verifier::opaque]
    pub open spec fn execute_high_control(self, opcode: u8) -> Z80View {
        if opcode == 0xc3 {
            self.jp(Cond::NONE)
        } else if opcode == 0xcb {
            self.cb_instr()
        } else if opcode == 0xf3 {
            self.di()
        } else if opcode == 0xfb {
            self.ei()
        } else {
            self.call(Cond::NONE)
        }
    }

    /// Opcodes 0xc0..=0xff: conditional RET, JP and CALL in the first half
    /// of columns 0, 2 and 4, POP and PUSH in the even rows of columns 1 and
    /// 5, arithmetic on an immediate in column 6, RST in column 7.
    #[verifier::opaque]
    pub open spec fn execute_high(self, opcode: u8) -> Z80View {
        let row = (opcode / 8) % 8;
        let column = opcode % 8;
        if column == 6 {
            self.alu(row, AddressingMode::IMM)
        } else if column == 7 {
            self.rst((row * 8) as u16)
        } else if column == 0 && row < 4 {
            self.ret(spec_cond_of(row))
        } else if column == 2 && row < 4 {
            self.jp(spec_cond_of(row))
        } else if column == 4 {
            self.call(spec_cond_of(row))
        } else if column == 1 && row % 2 == 0 {
            self.pop_nn(spec_pair_of(row / 2, true))
        } else if column == 5 && row % 2 == 0 {
            self.push_nn(spec_pair_of(row / 2, true))
        } else if column <= 2 {
            self.execute_high_misc(opcode)
        } else {
            self.execute_high_control(opcode)
        }
    }

    /// The instruction that an opcode names. The second quarter of the
    /// opcodes are the loads between operands, with HALT in the place of
    /// LD (HL),(HL); the third quarter is arithmetic on A.
    #[verifier::opaque]
    pub open spec fn execute(self, opcode: u8) -> Z80View {
        if opcode < 0x40 {
            self.execute_low(opcode)
        } else if opcode == 0x76 {
            self.halt()
        } else if opcode < 0x80 {
            self.ld_n_n(spec_operand(opcode / 8), spec_operand(opcode))
        } else if opcode < 0xc0 {
            self.alu(opcode / 8, spec_operand(opcode))
        } else {
            self.execute_high(opcode)
        }
    }

    /// Fetches an opcode and executes it. An undefined opcode is reported
    /// and leaves the machine behind the fetch.
    #[verifier::opaque]
    pub open spec fn execute_instruction(self) -> (Z80View, Result<(), CpuError>) {
        let (s, opcode) = self.fetch8();
        if spec_opcode_defined(opcode) {
            (s.execute(opcode), Ok(()))
        } else {
            (s, Err(CpuError::UnknownOpcode(opcode)))
        }
    }

    // ----- interrupts and the run loop -----

    /// The check between two instructions. The enabled and the flagged
    /// interrupts are read from the bus; if any is both, HALT ends, and with
    /// the master enable on the lowest-numbered one is served: its flag is
    /// cleared and the CPU is dispatched to its vector. Gives whether any
    /// was pending.
    #[verifier::opaque]
    pub open spec fn check_interrupts(self) -> (Z80View, bool) {
        let enabled = self.bus.read(0xffff);
        let flagged = enabled.0.read(0xff0f);
        let status = enabled.1 & flagged.1;
        let bit = spec_first_interrupt(status);
        let s = self.with_bus(flagged.0);
        let s = s.with_cpu(CpuState { halt: s.cpu.halt && bit == 0, ..s.cpu });
        if s.cpu.ime && bit != 0 {
            (s.with_bus(s.bus.write(0xff0f, flagged.1 & !bit)).interrupt(spec_vector(bit)), true)
        } else {
            (s, bit != 0)
        }
    }

    /// The end of a step: a pending EI comes one instruction boundary
    /// closer, and takes effect at the second one.
    pub open spec fn end_step(self) -> Z80View {
        if self.cpu.ei_delay == 0 {
            self
        } else {
            self.with_cpu(
                CpuState {
                    ime: self.cpu.ime || self.cpu.ei_delay == 1,
                    ei_delay: (self.cpu.ei_delay - 1) as u8,
                    ..self.cpu
                },
            )
        }
    }

    /// One step of the machine: the interrupt check, then one instruction,
    /// or one idle machine cycle while halted.
    #[verifier::opaque]
    pub open spec fn run(self) -> (Z80View, Result<(), CpuError>) {
        let s = self.check_interrupts().0;
        if s.cpu.halt {
            (s.tick().end_step(), Ok(()))
        } else {
            let (s, result) = s.execute_instruction();
            (s.end_step(), result)
        }
    }
}

pub struct Z80 {
    bus: Bus,
    cpu: CpuState,
}

impl View for Z80 {
    type V = Z80View;

    closed spec fn view(&self) -> Z80View {
        Z80View { bus: self.bus@, cpu: self.cpu }
    }
}

impl Z80 {
    pub fn new(bus: Bus) -> (r: Z80)
        requires
            bus@.wf(),
        ensures
            r@ == Z80View::init(bus@),
            r@.wf(),
    {
        Z80 { bus, cpu: CpuState { regs: Registers::new(), ime: false, halt: false, ei_delay: 0 } }
    }

    pub fn reset(&mut self)
        ensures
            final(self)@ == old(self)@.reset(),
            old(self)@.wf() ==> final(self)@.wf(),
    {
        self.set_cpu(
            CpuState {
                regs: Registers { pc: 0, ..self.cpu.regs },
                ime: true,
                halt: false,
                ..self.cpu
            },
        );
    }

    /// The bus, for the host to reach the peripherals.
    pub fn bus(&mut self) -> (r: &mut Bus)
        ensures
            r@ == old(self)@.bus,
            final(self)@ == old(self)@.with_bus(final(r)@),
    {
        &mut self.bus
    }

    /// The registers and the interrupt state.
    pub fn state(&self) -> (r: CpuState)
        ensures
            r == self@.cpu,
    {
        self.cpu
    }

    /// Replaces the registers and the interrupt state.
    pub fn set_state(&mut self, cpu: CpuState)
        ensures
            final(self)@ == old(self)@.with_cpu(cpu),
            old(self)@.wf() ==> final(self)@.wf(),
    {
        self.cpu = cpu;
    }

    fn set_cpu(&mut self, cpu: CpuState)
        ensures
            final(self)@ == old(self)@.with_cpu(cpu),
            old(self)@.wf() ==> final(self)@.wf(),
    {
        self.cpu = cpu;
    }

    fn set_regs(&mut self, regs: Registers)
        ensures
            final(self)@ == old(self)@.with_regs(regs),
            old(self)@.wf() ==> final(self)@.wf(),
    {
        self.cpu = CpuState { regs, ..self.cpu };
    }

    fn tick(&mut self)
        requires
            old(self)@.wf(),
        ensures
            final(self)@ == old(self)@.tick(),
            final(self)@.wf(),
    {
        self.bus.tick();
    }

    /// A bus read without a machine cycle.
    fn bus_read(&mut self, address: u16) -> (r: u8)
        requires
            old(self)@.wf(),
        ensures
            final(self)@ == old(self)@.with_bus(old(self)@.bus.read(address).0),
            r == old(self)@.bus.read(address).1,
            final(self)@.wf(),
    {
        self.bus.read(address)
    }

    /// A bus write without a machine cycle.
    fn bus_write(&mut self, address: u16, value: u8)
        requires
            old(self)@.wf(),
        ensures
            final(self)@ == old(self)@.with_bus(old(self)@.bus.write(address, value)),
            final(self)@.wf(),
    {
        self.bus.write(address, value);
    }

    fn read8(&mut self, address: u16) -> (r: u8)
        requires
            old(self)@.wf(),
        ensures
            (final(self)@, r) == old(self)@.read8(address),
            final(self)@.wf(),
    {
        self.tick();
        self.bus_read(address)
    }

    fn read16(&mut self, address: u16) -> (r: u16)
        requires
            old(self)@.wf(),
        ensures
            (final(self)@, r) == old(self)@.read16(address),
            final(self)@.wf(),
    {
        proof {
            reveal(Z80View::read16);
        }
        let lo = self.read8(address);
        let hi = self.read8(address.wrapping_add(1));
        ((hi as u16) << 8) | (lo as u16)
    }

    fn write8(&mut self, address: u16, value: u8)
        requires
            old(self)@.wf(),
        ensures
            final(self)@ == old(self)@.write8(address, value),
            final(self)@.wf(),
    {
        self.tick();
        self.bus_write(address, value);
    }

    fn write16(&mut self, address: u16, value: u16)
        requires
            old(self)@.wf(),
        ensures
            final(self)@ == old(self)@.write16(address, value),
            final(self)@.wf(),
    {
        proof {
            reveal(Z80View::write16);
        }
        self.write8(address, value as u8);
        self.write8(address.wrapping_add(1), (value >> 8) as u8);
    }

    fn imm(&mut self) -> (r: u16)
        ensures
            (final(self)@, r) == old(self)@.imm(),
            old(self)@.wf() ==> final(self)@.wf(),
    {
        let pc = self.cpu.regs.pc;
        self.set_regs(Registers { pc: pc.wrapping_add(1), ..self.cpu.regs });
        pc
    }

    fn imm16(&mut self) -> (r: u16)
        ensures
            (final(self)@, r) == old(self)@.imm16(),
            old(self)@.wf() ==> final(self)@.wf(),
    {
        let pc = self.cpu.regs.pc;
        self.set_regs(Registers { pc: pc.wrapping_add(2), ..self.cpu.regs });
        pc
    }

    fn fetch8(&mut self) -> (r: u8)
        requires
            old(self)@.wf(),
        ensures
            (final(self)@, r) == old(self)@.fetch8(),
            final(self)@.wf(),
    {
        proof {
            reveal(Z80View::fetch8);
        }
        let address = self.imm();
        self.read8(address)
    }

    fn fetch16(&mut self) -> (r: u16)
        requires
            old(self)@.wf(),
        ensures
            (final(self)@, r) == old(self)@.fetch16(),
            final(self)@.wf(),
    {
        proof {
            reveal(Z80View::fetch16);
        }
        let address = self.imm16();
        self.read16(address)
    }

    fn register(&self, mode: AddressingMode) -> (r: u8)
        ensures
            r == self@.register(mode),
    {
        match mode {
            AddressingMode::A => self.cpu.regs.a,
            AddressingMode::B => self.cpu.regs.b,
            AddressingMode::C => self.cpu.regs.c,
            AddressingMode::D => self.cpu.regs.d,
            AddressingMode::E => self.cpu.regs.e,
            AddressingMode::H => self.cpu.regs.h,
            _ => self.cpu.regs.l,
        }
    }

    fn with_register(&self, mode: AddressingMode, value: u8) -> (r: Registers)
        ensures
            r == self@.with_register(mode, value),
    {
        let regs = self.cpu.regs;
        match mode {
            AddressingMode::A => Registers { a: value, ..regs },
            AddressingMode::B => Registers { b: value, ..regs },
            AddressingMode::C => Registers { c: value, ..regs },
            AddressingMode::D => Registers { d: value, ..regs },
            AddressingMode::E => Registers { e: value, ..regs },
            AddressingMode::H => Registers { h: value, ..regs },
            _ => Registers { l: value, ..regs },
        }
    }

    fn read_mode(&mut self, mode: AddressingMode) -> (r: u8)
        requires
            old(self)@.wf(),
        ensures
            (final(self)@, r) == old(self)@.read_mode(mode),
            final(self)@.wf(),
    {
        proof {
            reveal(Z80View::read_mode);
        }
        match mode {
            AddressingMode::HLP => {
                let hl = self.cpu.regs.read16(Reg16::HL);
                self.read8(hl)
            },
            AddressingMode::IMM => self.fetch8(),
            _ => self.register(mode),
        }
    }

    fn write_mode(&mut self, mode: AddressingMode, value: u8)
        requires
            old(self)@.wf(),
            mode != AddressingMode::IMM,
        ensures
            final(self)@ == old(self)@.write_mode(mode, value),
            final(self)@.wf(),
    {
        proof {
            reveal(Z80View::write_mode);
        }
        match mode {
            AddressingMode::HLP => {
                let hl = self.cpu.regs.read16(Reg16::HL);
                self.write8(hl, value);
            },
            _ => {
                let regs = self.with_register(mode, value);
                self.set_regs(regs);
            },
        }
    }

    fn pop8(&mut self) -> (r: u8)
        requires
            old(self)@.wf(),
        ensures
            (final(self)@, r) == old(self)@.pop8(),
            final(self)@.wf(),
    {
        proof {
            reveal(Z80View::pop8);
        }
        let sp = self.cpu.regs.sp;
        self.set_regs(Registers { sp: sp.wrapping_add(1), ..self.cpu.regs });
        self.read8(sp)
    }

    fn pop16(&mut self) -> (r: u16)
        requires
            old(self)@.wf(),
        ensures
            (final(self)@, r) == old(self)@.pop16(),
            final(self)@.wf(),
    {
        proof {
            reveal(Z80View::pop16);
        }
        let l = self.pop8();
        let h = self.pop8();
        ((h as u16) << 8) | (l as u16)
    }

    fn push8(&mut self, value: u8)
        requires
            old(self)@.wf(),
        ensures
            final(self)@ == old(self)@.push8(value),
            final(self)@.wf(),
    {
        proof {
            reveal(Z80View::push8);
        }
        let sp = self.cpu.regs.sp.wrapping_sub(1);
        self.set_regs(Registers { sp, ..self.cpu.regs });
        self.write8(sp, value);
    }

    fn push16(&mut self, value: u16)
        requires
            old(self)@.wf(),
        ensures
            final(self)@ == old(self)@.push16(value),
            final(self)@.wf(),
    {
        proof {
            reveal(Z80View::push16);
        }
        self.push8((value >> 8) as u8);
        self.push8(value as u8);
    }

    fn condition_met(&self, cond: Cond) -> (r: bool)
        ensures
            r == self@.condition_met(cond),
    {
        match cond {
            Cond::NONE => true,
            Cond::C => self.cpu.regs.f.carry,
            Cond::NC => !self.cpu.regs.f.carry,
            Cond::Z => self.cpu.regs.f.zero,
            Cond::NZ => !self.cpu.regs.f.zero,
        }
    }

    /// HALT: instruction fetch stops until an interrupt is pending.
    fn halt(&mut self)
        requires
            old(self)@.wf(),
        ensures
            final(self)@ == old(self)@.halt(),
            final(self)@.wf(),
    {
        proof {
            reveal(Z80View::halt);
        }
        self.set_cpu(CpuState { halt: true, ..self.cpu });
    }

    /// STOP: takes its operand byte and does nothing else.
    fn stop(&mut self)
        requires
            old(self)@.wf(),
        ensures
            final(self)@ == old(self)@.stop(),
            final(self)@.wf(),
    {
        proof {
            reveal(Z80View::stop);
        }
        let padding = self.fetch8();
    }

    /// DI: interrupts off at once; a pending EI is dropped.
    fn di(&mut self)
        requires
            old(self)@.wf(),
        ensures
            final(self)@ == old(self)@.di(),
            final(self)@.wf(),
    {
        proof {
            reveal(Z80View::di);
        }
        self.set_cpu(CpuState { ime: false, ei_delay: 0, ..self.cpu });
    }

    /// EI: interrupts on once the instruction after this one is done.
    fn ei(&mut self)
        requires
            old(self)@.wf(),
        ensures
            final(self)@ == old(self)@.ei(),
            final(self)@.wf(),
    {
        proof {
            reveal(Z80View::ei);
        }
        self.set_cpu(CpuState { ei_delay: 2, ..self.cpu });
    }

    /// CPL: flips every bit of A.
    fn cpl(&mut self)
        requires
            old(self)@.wf(),
        ensures
            final(self)@ == old(self)@.cpl(),
            final(self)@.wf(),
    {
        proof {
            reveal(Z80View::cpl);
        }
        let r = cpl8(self.cpu.regs.a, self.cpu.regs.f);
        self.set_regs(Registers { a: r.0, f: r.1, ..self.cpu.regs });
    }

    /// SCF: sets the carry.
    fn scf(&mut self)
        requires
            old(self)@.wf(),
        ensures
            final(self)@ == old(self)@.scf(),
            final(self)@.wf(),
    {
        proof {
            reveal(Z80View::scf);
        }
        self.set_regs(Registers { f: scf(self.cpu.regs.f), ..self.cpu.regs });
    }

    /// CCF: flips the carry.
    fn ccf(&mut self)
        requires
            old(self)@.wf(),
        ensures
            final(self)@ == old(self)@.ccf(),
            final(self)@.wf(),
    {
        proof {
            reveal(Z80View::ccf);
        }
        self.set_regs(Registers { f: ccf(self.cpu.regs.f), ..self.cpu.regs });
    }

    /// DAA: adjusts A to two decimal digits after an addition or a
    /// subtraction.
    fn daa(&mut self)
        requires
            old(self)@.wf(),
        ensures
            final(self)@ == old(self)@.daa(),
            final(self)@.wf(),
    {
        proof {
            reveal(Z80View::daa);
        }
        let r = daa8(self.cpu.regs.a, self.cpu.regs.f);
        self.set_regs(Registers { a: r.0, f: r.1, ..self.cpu.regs });
    }

    /// LD (a16),SP: stores SP, low byte first.
    fn ld_nn_sp(&mut self)
        requires
            old(self)@.wf(),
        ensures
            final(self)@ == old(self)@.ld_nn_sp(),
            final(self)@.wf(),
    {
        proof {
            reveal(Z80View::ld_nn_sp);
        }
        let address = self.fetch16();
        self.write16(address, self.cpu.regs.sp);
    }

    /// ADD SP,r8; two more machine cycles.
    fn add_sp_n(&mut self)
        requires
            old(self)@.wf(),
        ensures
            final(self)@ == old(self)@.add_sp_n(),
            final(self)@.wf(),
    {
        proof {
            reveal(Z80View::add_sp_n);
        }
        let offset = self.fetch8();
        let r = add_sp(self.cpu.regs.sp, offset);
        self.set_regs(Registers { sp: r.0, f: r.1, ..self.cpu.regs });
        self.tick();
        self.tick();
    }

    /// LD SP,HL; one more machine cycle.
    fn ld_sp_hl(&mut self)
        requires
            old(self)@.wf(),
        ensures
            final(self)@ == old(self)@.ld_sp_hl(),
            final(self)@.wf(),
    {
        proof {
            reveal(Z80View::ld_sp_hl);
        }
        self.set_regs(Registers { sp: self.cpu.regs.read16(Reg16::HL), ..self.cpu.regs });
        self.tick();
    }

    /// LD HL,SP+r8; one more machine cycle.
    fn ld_hl_sp_n(&mut self)
        requires
            old(self)@.wf(),
        ensures
            final(self)@ == old(self)@.ld_hl_sp_n(),
            final(self)@.wf(),
    {
        proof {
            reveal(Z80View::ld_hl_sp_n);
        }
        let offset = self.fetch8();
        let r = add_sp(self.cpu.regs.sp, offset);
        self.set_regs(Registers { f: r.1, ..self.cpu.regs.with16(Reg16::HL, r.0) });
        self.tick();
    }

    /// RST n: pushes PC and jumps to a fixed address; one more machine cycle.
    fn rst(&mut self, address: u16)
        requires
            old(self)@.wf(),
        ensures
            final(self)@ == old(self)@.rst(address),
            final(self)@.wf(),
    {
        proof {
            reveal(Z80View::rst);
        }
        self.push16(self.cpu.regs.pc);
        self.set_regs(Registers { pc: address, ..self.cpu.regs });
        self.tick();
    }

    /// JP cc,a16; one more machine cycle when taken.
    fn jp(&mut self, cond: Cond)
        requires
            old(self)@.wf(),
        ensures
            final(self)@ == old(self)@.jp(cond),
            final(self)@.wf(),
    {
        proof {
            reveal(Z80View::jp);
        }
        let dest = self.fetch16();
        if self.condition_met(cond) {
            self.set_regs(Registers { pc: dest, ..self.cpu.regs });
            self.tick();
        }
    }

    /// JP HL: jumps to where HL points.
    fn jp_hl(&mut self)
        requires
            old(self)@.wf(),
        ensures
            final(self)@ == old(self)@.jp_hl(),
            final(self)@.wf(),
    {
        proof {
            reveal(Z80View::jp_hl);
        }
        self.set_regs(Registers { pc: self.cpu.regs.read16(Reg16::HL), ..self.cpu.regs });
    }

    /// ADD HL,rr; one more machine cycle.
    fn add_hl_nn(&mut self, reg: Reg16)
        requires
            old(self)@.wf(),
        ensures
            final(self)@ == old(self)@.add_hl_nn(reg),
            final(self)@.wf(),
    {
        proof {
            reveal(Z80View::add_hl_nn);
        }
        let hl = self.cpu.regs.read16(Reg16::HL);
        let value = self.cpu.regs.read16(reg);
        let r = add16(hl, value, self.cpu.regs.f);
        self.set_regs(Registers { f: r.1, ..self.cpu.regs.with16(Reg16::HL, r.0) });
        self.tick();
    }

    /// ADC A,x: A plus the operand plus the carry.
    fn adc(&mut self, mode: AddressingMode)
        requires
            old(self)@.wf(),
        ensures
            final(self)@ == old(self)@.adc(mode),
            final(self)@.wf(),
    {
        proof {
            reveal(Z80View::adc);
        }
        let value = self.read_mode(mode);
        let r = add8(self.cpu.regs.a, value, self.cpu.regs.f.carry);
        self.set_regs(Registers { a: r.0, f: r.1, ..self.cpu.regs });
    }

    /// SBC A,x: A less the operand and the carry.
    fn sbc(&mut self, mode: AddressingMode)
        requires
            old(self)@.wf(),
        ensures
            final(self)@ == old(self)@.sbc(mode),
            final(self)@.wf(),
    {
        proof {
            reveal(Z80View::sbc);
        }
        let value = self.read_mode(mode);
        let r = sub8(self.cpu.regs.a, value, self.cpu.regs.f.carry);
        self.set_regs(Registers { a: r.0, f: r.1, ..self.cpu.regs });
    }

    /// ADD A,x: A plus the operand.
    fn add(&mut self, mode: AddressingMode)
        requires
            old(self)@.wf(),
        ensures
            final(self)@ == old(self)@.add(mode),
            final(self)@.wf(),
    {
        proof {
            reveal(Z80View::add);
        }
        let value = self.read_mode(mode);
        let r = add8(self.cpu.regs.a, value, false);
        self.set_regs(Registers { a: r.0, f: r.1, ..self.cpu.regs });
    }

    /// SUB x: A less the operand.
    fn sub(&mut self, mode: AddressingMode)
        requires
            old(self)@.wf(),
        ensures
            final(self)@ == old(self)@.sub(mode),
            final(self)@.wf(),
    {
        proof {
            reveal(Z80View::sub);
        }
        let value = self.read_mode(mode);
        let r = sub8(self.cpu.regs.a, value, false);
        self.set_regs(Registers { a: r.0, f: r.1, ..self.cpu.regs });
    }

    /// CP x: the flags of SUB x; A stays.
    fn cp(&mut self, mode: AddressingMode)
        requires
            old(self)@.wf(),
        ensures
            final(self)@ == old(self)@.cp(mode),
            final(self)@.wf(),
    {
        proof {
            reveal(Z80View::cp);
        }
        let value = self.read_mode(mode);
        let r = sub8(self.cpu.regs.a, value, false);
        self.set_regs(Registers { f: r.1, ..self.cpu.regs });
    }

    /// AND x: A and the operand, bit by bit.
    fn and(&mut self, mode: AddressingMode)
        requires
            old(self)@.wf(),
        ensures
            final(self)@ == old(self)@.and(mode),
            final(self)@.wf(),
    {
        proof {
            reveal(Z80View::and);
        }
        let value = self.read_mode(mode);
        let r = and8(self.cpu.regs.a, value);
        self.set_regs(Registers { a: r.0, f: r.1, ..self.cpu.regs });
    }

    /// OR x: A or the operand, bit by bit.
    fn or(&mut self, mode: AddressingMode)
        requires
            old(self)@.wf(),
        ensures
            final(self)@ == old(self)@.or(mode),
            final(self)@.wf(),
    {
        proof {
            reveal(Z80View::or);
        }
        let value = self.read_mode(mode);
        let r = or8(self.cpu.regs.a, value);
        self.set_regs(Registers { a: r.0, f: r.1, ..self.cpu.regs });
    }

    /// XOR x: A exclusive-or the operand, bit by bit.
    fn xor(&mut self, mode: AddressingMode)
        requires
            old(self)@.wf(),
        ensures
            final(self)@ == old(self)@.xor(mode),
            final(self)@.wf(),
    {
        proof {
            reveal(Z80View::xor);
        }
        let value = self.read_mode(mode);
        let r = xor8(self.cpu.regs.a, value);
        self.set_regs(Registers { a: r.0, f: r.1, ..self.cpu.regs });
    }

    /// POP rr. A pop into AF keeps only the top nibble of F.
    fn pop_nn(&mut self, reg: Reg16)
        requires
            old(self)@.wf(),
        ensures
            final(self)@ == old(self)@.pop_nn(reg),
            final(self)@.wf(),
    {
        proof {
            reveal(Z80View::pop_nn);
        }
        let value = self.pop16();
        self.set_regs(self.cpu.regs.with16(reg, value));
    }

    /// PUSH rr; one machine cycle before the two writes.
    fn push_nn(&mut self, reg: Reg16)
        requires
            old(self)@.wf(),
        ensures
            final(self)@ == old(self)@.push_nn(reg),
            final(self)@.wf(),
    {
        proof {
            reveal(Z80View::push_nn);
        }
        self.tick();
        self.push16(self.cpu.regs.read16(reg));
    }

    /// LD x,y: copies one operand into another.
    fn ld_n_n(&mut self, dest: AddressingMode, src: AddressingMode)
        requires
            old(self)@.wf(),
            dest != AddressingMode::IMM,
        ensures
            final(self)@ == old(self)@.ld_n_n(dest, src),
            final(self)@.wf(),
    {
        proof {
            reveal(Z80View::ld_n_n);
        }
        let value = self.read_mode(src);
        self.write_mode(dest, value);
    }

    /// RET cc: the conditional forms take one machine cycle to test, and a
    /// return that is taken one more after the pop.
    fn ret(&mut self, cond: Cond)
        requires
            old(self)@.wf(),
        ensures
            final(self)@ == old(self)@.ret(cond),
            final(self)@.wf(),
    {
        proof {
            reveal(Z80View::ret);
        }
        if cond != Cond::NONE {
            self.tick();
        }
        if self.condition_met(cond) {
            let pc = self.pop16();
            self.set_regs(Registers { pc, ..self.cpu.regs });
            self.tick();
        }
    }

    /// RETI: interrupts on at once, then RET.
    fn reti(&mut self)
        requires
            old(self)@.wf(),
        ensures
            final(self)@ == old(self)@.reti(),
            final(self)@.wf(),
    {
        proof {
            reveal(Z80View::reti);
        }
        self.set_cpu(CpuState { ime: true, ..self.cpu });
        let pc = self.pop16();
        self.set_regs(Registers { pc, ..self.cpu.regs });
        self.tick();
    }

    /// INC x: the operand plus one.
    fn inc(&mut self, mode: AddressingMode)
        requires
            old(self)@.wf(),
            mode != AddressingMode::IMM,
        ensures
            final(self)@ == old(self)@.inc(mode),
            final(self)@.wf(),
    {
        proof {
            reveal(Z80View::inc);
        }
        let value = self.read_mode(mode);
        let r = inc8(value, self.cpu.regs.f);
        self.write_mode(mode, r.0);
        self.set_regs(Registers { f: r.1, ..self.cpu.regs });
    }

    /// DEC x: the operand less one.
    fn dec(&mut self, mode: AddressingMode)
        requires
            old(self)@.wf(),
            mode != AddressingMode::IMM,
        ensures
            final(self)@ == old(self)@.dec(mode),
            final(self)@.wf(),
    {
        proof {
            reveal(Z80View::dec);
        }
        let value = self.read_mode(mode);
        let r = dec8(value, self.cpu.regs.f);
        self.write_mode(mode, r.0);
        self.set_regs(Registers { f: r.1, ..self.cpu.regs });
    }

    /// INC rr; one more machine cycle. No flag changes.
    fn inc16(&mut self, reg: Reg16)
        requires
            old(self)@.wf(),
        ensures
            final(self)@ == old(self)@.inc16(reg),
            final(self)@.wf(),
    {
        proof {
            reveal(Z80View::inc16);
        }
        let value = self.cpu.regs.read16(reg);
        self.set_regs(self.cpu.regs.with16(reg, value.wrapping_add(1)));
        self.tick();
    }

    /// DEC rr; one more machine cycle. No flag changes.
    fn dec16(&mut self, reg: Reg16)
        requires
            old(self)@.wf(),
        ensures
            final(self)@ == old(self)@.dec16(reg),
            final(self)@.wf(),
    {
        proof {
            reveal(Z80View::dec16);
        }
        let value = self.cpu.regs.read16(reg);
        self.set_regs(self.cpu.regs.with16(reg, value.wrapping_sub(1)));
        self.tick();
    }

    /// LD x,d8: loads the byte behind the opcode.
    fn ld_imm(&mut self, mode: AddressingMode)
        requires
            old(self)@.wf(),
            mode != AddressingMode::IMM,
        ensures
            final(self)@ == old(self)@.ld_imm(mode),
            final(self)@.wf(),
    {
        proof {
            reveal(Z80View::ld_imm);
        }
        let value = self.fetch8();
        self.write_mode(mode, value);
    }

    /// LD (rr),A: stores A where the pair points.
    fn ld_nn_a(&mut self, reg: Reg16)
        requires
            old(self)@.wf(),
        ensures
            final(self)@ == old(self)@.ld_nn_a(reg),
            final(self)@.wf(),
    {
        proof {
            reveal(Z80View::ld_nn_a);
        }
        self.write8(self.cpu.regs.read16(reg), self.cpu.regs.a);
    }

    /// LD A,(rr): loads A from where the pair points.
    fn ld_a_nn(&mut self, reg: Reg16)
        requires
            old(self)@.wf(),
        ensures
            final(self)@ == old(self)@.ld_a_nn(reg),
            final(self)@.wf(),
    {
        proof {
            reveal(Z80View::ld_a_nn);
        }
        let value = self.read8(self.cpu.regs.read16(reg));
        self.set_regs(Registers { a: value, ..self.cpu.regs });
    }

    /// LD A,(a16): loads A from the address behind the opcode.
    fn ld_a_imm16(&mut self)
        requires
            old(self)@.wf(),
        ensures
            final(self)@ == old(self)@.ld_a_imm16(),
            final(self)@.wf(),
    {
        proof {
            reveal(Z80View::ld_a_imm16);
        }
        let address = self.fetch16();
        let value = self.read8(address);
        self.set_regs(Registers { a: value, ..self.cpu.regs });
    }

    /// LD (a16),A: stores A at the address behind the opcode.
    fn ld_imm16_a(&mut self)
        requires
            old(self)@.wf(),
        ensures
            final(self)@ == old(self)@.ld_imm16_a(),
            final(self)@.wf(),
    {
        proof {
            reveal(Z80View::ld_imm16_a);
        }
        let address = self.fetch16();
        self.write8(address, self.cpu.regs.a);
    }

    /// LD (HL),d8: stores the byte behind the opcode where HL points.
    fn ld_hlp_imm(&mut self)
        requires
            old(self)@.wf(),
        ensures
            final(self)@ == old(self)@.ld_hlp_imm(),
            final(self)@.wf(),
    {
        proof {
            reveal(Z80View::ld_hlp_imm);
        }
        let value = self.fetch8();
        self.write8(self.cpu.regs.read16(Reg16::HL), value);
    }

    /// JR cc,r8: a jump relative to the next instruction; one more machine
    /// cycle when taken.
    fn jr(&mut self, cond: Cond)
        requires
            old(self)@.wf(),
        ensures
            final(self)@ == old(self)@.jr(cond),
            final(self)@.wf(),
    {
        proof {
            reveal(Z80View::jr);
        }
        let offset = self.fetch8();
        if self.condition_met(cond) {
            let target = self.cpu.regs.pc.wrapping_add(sign_extend(offset));
            self.set_regs(Registers { pc: target, ..self.cpu.regs });
            self.tick();
        }
    }

    /// LD rr,d16: loads the two bytes behind the opcode.
    fn ld_imm16(&mut self, reg: Reg16)
        requires
            old(self)@.wf(),
        ensures
            final(self)@ == old(self)@.ld_imm16(reg),
            final(self)@.wf(),
    {
        proof {
            reveal(Z80View::ld_imm16);
        }
        let value = self.fetch16();
        self.set_regs(self.cpu.regs.with16(reg, value));
    }

    /// LD A,(HL-): loads A from where HL points; HL then counts down.
    fn ld_a_hlmp(&mut self)
        requires
            old(self)@.wf(),
        ensures
            final(self)@ == old(self)@.ld_a_hlmp(),
            final(self)@.wf(),
    {
        proof {
            reveal(Z80View::ld_a_hlmp);
        }
        let hl = self.cpu.regs.read16(Reg16::HL);
        let value = self.read8(hl);
        let loaded = Registers { a: value, ..self.cpu.regs };
        self.set_regs(loaded.with16(Reg16::HL, hl.wrapping_sub(1)));
    }

    /// LD A,(HL+): loads A from where HL points; HL then counts up.
    fn ld_a_hlpp(&mut self)
        requires
            old(self)@.wf(),
        ensures
            final(self)@ == old(self)@.ld_a_hlpp(),
            final(self)@.wf(),
    {
        proof {
            reveal(Z80View::ld_a_hlpp);
        }
        let hl = self.cpu.regs.read16(Reg16::HL);
        let value = self.read8(hl);
        let loaded = Registers { a: value, ..self.cpu.regs };
        self.set_regs(loaded.with16(Reg16::HL, hl.wrapping_add(1)));
    }

    /// LD (HL+),A: stores A where HL points; HL then counts up.
    fn ld_hlpp_a(&mut self)
        requires
            old(self)@.wf(),
        ensures
            final(self)@ == old(self)@.ld_hlpp_a(),
            final(self)@.wf(),
    {
        proof {
            reveal(Z80View::ld_hlpp_a);
        }
        let hl = self.cpu.regs.read16(Reg16::HL);
        self.write8(hl, self.cpu.regs.a);
        self.set_regs(self.cpu.regs.with16(Reg16::HL, hl.wrapping_add(1)));
    }

    /// LD (HL-),A: stores A where HL points; HL then counts down.
    fn ld_hlmp_a(&mut self)
        requires
            old(self)@.wf(),
        ensures
            final(self)@ == old(self)@.ld_hlmp_a(),
            final(self)@.wf(),
    {
        proof {
            reveal(Z80View::ld_hlmp_a);
        }
        let hl = self.cpu.regs.read16(Reg16::HL);
        self.write8(hl, self.cpu.regs.a);
        self.set_regs(self.cpu.regs.with16(Reg16::HL, hl.wrapping_sub(1)));
    }

    /// RL x: rotates the operand left through the carry.
    fn alu_rl(&mut self, mode: AddressingMode)
        requires
            old(self)@.wf(),
            mode != AddressingMode::IMM,
        ensures
            final(self)@ == old(self)@.alu_rl(mode),
            final(self)@.wf(),
    {
        proof {
            reveal(Z80View::alu_rl);
        }
        let value = self.read_mode(mode);
        let r = rl8(value, self.cpu.regs.f.carry);
        self.write_mode(mode, r.0);
        self.set_regs(Registers { f: r.1, ..self.cpu.regs });
    }

    /// RLC x: rotates the operand left.
    fn alu_rlc(&mut self, mode: AddressingMode)
        requires
            old(self)@.wf(),
            mode != AddressingMode::IMM,
        ensures
            final(self)@ == old(self)@.alu_rlc(mode),
            final(self)@.wf(),
    {
        proof {
            reveal(Z80View::alu_rlc);
        }
        let value = self.read_mode(mode);
        let r = rlc8(value);
        self.write_mode(mode, r.0);
        self.set_regs(Registers { f: r.1, ..self.cpu.regs });
    }

    /// RR x: rotates the operand right through the carry.
    fn alu_rr(&mut self, mode: AddressingMode)
        requires
            old(self)@.wf(),
            mode != AddressingMode::IMM,
        ensures
            final(self)@ == old(self)@.alu_rr(mode),
            final(self)@.wf(),
    {
        proof {
            reveal(Z80View::alu_rr);
        }
        let value = self.read_mode(mode);
        let r = rr8(value, self.cpu.regs.f.carry);
        self.write_mode(mode, r.0);
        self.set_regs(Registers { f: r.1, ..self.cpu.regs });
    }

    /// RRC x: rotates the operand right.
    fn alu_rrc(&mut self, mode: AddressingMode)
        requires
            old(self)@.wf(),
            mode != AddressingMode::IMM,
        ensures
            final(self)@ == old(self)@.alu_rrc(mode),
            final(self)@.wf(),
    {
        proof {
            reveal(Z80View::alu_rrc);
        }
        let value = self.read_mode(mode);
        let r = rrc8(value);
        self.write_mode(mode, r.0);
        self.set_regs(Registers { f: r.1, ..self.cpu.regs });
    }

    /// SLA x: shifts the operand left.
    fn cb_sla(&mut self, mode: AddressingMode)
        requires
            old(self)@.wf(),
            mode != AddressingMode::IMM,
        ensures
            final(self)@ == old(self)@.cb_sla(mode),
            final(self)@.wf(),
    {
        proof {
            reveal(Z80View::cb_sla);
        }
        let value = self.read_mode(mode);
        let r = sla8(value);
        self.write_mode(mode, r.0);
        self.set_regs(Registers { f: r.1, ..self.cpu.regs });
    }

    /// SRA x: shifts the operand right and keeps its sign.
    fn cb_sra(&mut self, mode: AddressingMode)
        requires
            old(self)@.wf(),
            mode != AddressingMode::IMM,
        ensures
            final(self)@ == old(self)@.cb_sra(mode),
            final(self)@.wf(),
    {
        proof {
            reveal(Z80View::cb_sra);
        }
        let value = self.read_mode(mode);
        let r = sra8(value);
        self.write_mode(mode, r.0);
        self.set_regs(Registers { f: r.1, ..self.cpu.regs });
    }

    /// SWAP x: exchanges the nibbles of the operand.
    fn cb_swap(&mut self, mode: AddressingMode)
        requires
            old(self)@.wf(),
            mode != AddressingMode::IMM,
        ensures
            final(self)@ == old(self)@.cb_swap(mode),
            final(self)@.wf(),
    {
        proof {
            reveal(Z80View::cb_swap);
        }
        let value = self.read_mode(mode);
        let r = swap8(value);
        self.write_mode(mode, r.0);
        self.set_regs(Registers { f: r.1, ..self.cpu.regs });
    }

    /// SRL x: shifts the operand right.
    fn cb_srl(&mut self, mode: AddressingMode)
        requires
            old(self)@.wf(),
            mode != AddressingMode::IMM,
        ensures
            final(self)@ == old(self)@.cb_srl(mode),
            final(self)@.wf(),
    {
        proof {
            reveal(Z80View::cb_srl);
        }
        let value = self.read_mode(mode);
        let r = srl8(value);
        self.write_mode(mode, r.0);
        self.set_regs(Registers { f: r.1, ..self.cpu.regs });
    }

    /// RLA: RL A with Z clear.
    fn rla(&mut self)
        requires
            old(self)@.wf(),
        ensures
            final(self)@ == old(self)@.rla(),
            final(self)@.wf(),
    {
        proof {
            reveal(Z80View::rla);
        }
        self.alu_rl(AddressingMode::A);
        self.set_regs(Registers { f: Flags { zero: false, ..self.cpu.regs.f }, ..self.cpu.regs });
    }

    /// RLCA: RLC A with Z clear.
    fn rlca(&mut self)
        requires
            old(self)@.wf(),
        ensures
            final(self)@ == old(self)@.rlca(),
            final(self)@.wf(),
    {
        proof {
            reveal(Z80View::rlca);
        }
        self.alu_rlc(AddressingMode::A);
        self.set_regs(Registers { f: Flags { zero: false, ..self.cpu.regs.f }, ..self.cpu.regs });
    }

    /// RRA: RR A with Z clear.
    fn rra(&mut self)
        requires
            old(self)@.wf(),
        ensures
            final(self)@ == old(self)@.rra(),
            final(self)@.wf(),
    {
        proof {
            reveal(Z80View::rra);
        }
        self.alu_rr(AddressingMode::A);
        self.set_regs(Registers { f: Flags { zero: false, ..self.cpu.regs.f }, ..self.cpu.regs });
    }

    /// RRCA: RRC A with Z clear.
    fn rrca(&mut self)
        requires
            old(self)@.wf(),
        ensures
            final(self)@ == old(self)@.rrca(),
            final(self)@.wf(),
    {
        proof {
            reveal(Z80View::rrca);
        }
        self.alu_rrc(AddressingMode::A);
        self.set_regs(Registers { f: Flags { zero: false, ..self.cpu.regs.f }, ..self.cpu.regs });
    }

    /// RES b,x: clears one bit of the operand.
    fn cb_res(&mut self, bit: u8, mode: AddressingMode)
        requires
            old(self)@.wf(),
            bit <= 7,
            mode != AddressingMode::IMM,
        ensures
            final(self)@ == old(self)@.cb_res(bit, mode),
            final(self)@.wf(),
    {
        proof {
            reveal(Z80View::cb_res);
        }
        let value = self.read_mode(mode);
        self.write_mode(mode, res8(bit, value));
    }

    /// SET b,x: sets one bit of the operand.
    fn cb_set(&mut self, bit: u8, mode: AddressingMode)
        requires
            old(self)@.wf(),
            bit <= 7,
            mode != AddressingMode::IMM,
        ensures
            final(self)@ == old(self)@.cb_set(bit, mode),
            final(self)@.wf(),
    {
        proof {
            reveal(Z80View::cb_set);
        }
        let value = self.read_mode(mode);
        self.write_mode(mode, set8(bit, value));
    }

    /// BIT b,x: tests one bit of the operand.
    fn cb_bit(&mut self, bit: u8, mode: AddressingMode)
        requires
            old(self)@.wf(),
            bit <= 7,
        ensures
            final(self)@ == old(self)@.cb_bit(bit, mode),
            final(self)@.wf(),
    {
        proof {
            reveal(Z80View::cb_bit);
        }
        let value = self.read_mode(mode);
        self.set_regs(Registers { f: bit8(bit, value, self.cpu.regs.f), ..self.cpu.regs });
    }

    /// LDH (a8),A: stores A in the page at 0xff00, at the offset behind the
    /// opcode.
    fn ldh_n_a(&mut self)
        requires
            old(self)@.wf(),
        ensures
            final(self)@ == old(self)@.ldh_n_a(),
            final(self)@.wf(),
    {
        proof {
            reveal(Z80View::ldh_n_a);
        }
        let offset = self.fetch8();
        self.write8(0xff00 + offset as u16, self.cpu.regs.a);
    }

    /// LDH A,(a8): loads A from the page at 0xff00, at the offset behind the
    /// opcode.
    fn ldh_a_n(&mut self)
        requires
            old(self)@.wf(),
        ensures
            final(self)@ == old(self)@.ldh_a_n(),
            final(self)@.wf(),
    {
        proof {
            reveal(Z80View::ldh_a_n);
        }
        let offset = self.fetch8();
        let value = self.read8(0xff00 + offset as u16);
        self.set_regs(Registers { a: value, ..self.cpu.regs });
    }

    /// LD A,(C): loads A from the page at 0xff00, at offset C.
    fn ld_a_cp(&mut self)
        requires
            old(self)@.wf(),
        ensures
            final(self)@ == old(self)@.ld_a_cp(),
            final(self)@.wf(),
    {
        proof {
            reveal(Z80View::ld_a_cp);
        }
        let value = self.read8(0xff00 + self.cpu.regs.c as u16);
        self.set_regs(Registers { a: value, ..self.cpu.regs });
    }

    /// LD (C),A: stores A in the page at 0xff00, at offset C.
    fn ld_cp_a(&mut self)
        requires
            old(self)@.wf(),
        ensures
            final(self)@ == old(self)@.ld_cp_a(),
            final(self)@.wf(),
    {
        proof {
            reveal(Z80View::ld_cp_a);
        }
        self.write8(0xff00 + self.cpu.regs.c as u16, self.cpu.regs.a);
    }

    /// CALL cc,a16: when taken, one machine cycle, then the address of the
    /// next instruction is pushed.
    fn call(&mut self, cond: Cond)
        requires
            old(self)@.wf(),
        ensures
            final(self)@ == old(self)@.call(cond),
            final(self)@.wf(),
    {
        proof {
            reveal(Z80View::call);
        }
        let dest = self.fetch16();
        if self.condition_met(cond) {
            self.tick();
            self.push16(self.cpu.regs.pc);
            self.set_regs(Registers { pc: dest, ..self.cpu.regs });
        }
    }

    /// The dispatch of an interrupt: interrupts off, two machine cycles, PC
    /// pushed, PC at the vector, one more machine cycle.
    fn interrupt(&mut self, address: u16)
        requires
            old(self)@.wf(),
        ensures
            final(self)@ == old(self)@.interrupt(address),
            final(self)@.wf(),
    {
        proof {
            reveal(Z80View::interrupt);
        }
        self.set_cpu(CpuState { ime: false, ..self.cpu });
        self.tick();
        self.tick();
        self.push16(self.cpu.regs.pc);
        self.set_regs(Registers { pc: address, ..self.cpu.regs });
        self.tick();
    }

    fn alu(&mut self, operation: u8, mode: AddressingMode)
        requires
            old(self)@.wf(),
        ensures
            final(self)@ == old(self)@.alu(operation, mode),
            final(self)@.wf(),
    {
        proof {
            reveal(Z80View::alu);
        }
        match operation % 8 {
            0 => self.add(mode),
            1 => self.adc(mode),
            2 => self.sub(mode),
            3 => self.sbc(mode),
            4 => self.and(mode),
            5 => self.xor(mode),
            6 => self.or(mode),
            _ => self.cp(mode),
        }
    }

    fn shift(&mut self, operation: u8, mode: AddressingMode)
        requires
            old(self)@.wf(),
            mode != AddressingMode::IMM,
        ensures
            final(self)@ == old(self)@.shift(operation, mode),
            final(self)@.wf(),
    {
        proof {
            reveal(Z80View::shift);
        }
        match operation % 8 {
            0 => self.alu_rlc(mode),
            1 => self.alu_rrc(mode),
            2 => self.alu_rl(mode),
            3 => self.alu_rr(mode),
            4 => self.cb_sla(mode),
            5 => self.cb_sra(mode),
            6 => self.cb_swap(mode),
            _ => self.cb_srl(mode),
        }
    }

    fn execute_cb(&mut self, opcode: u8)
        requires
            old(self)@.wf(),
        ensures
            final(self)@ == old(self)@.execute_cb(opcode),
            final(self)@.wf(),
    {
        proof {
            reveal(Z80View::execute_cb);
        }
        let mode = operand(opcode);
        let number = (opcode / 8) % 8;
        if opcode < 0x40 {
            self.shift(number, mode);
        } else if opcode < 0x80 {
            self.cb_bit(number, mode);
        } else if opcode < 0xc0 {
            self.cb_res(number, mode);
        } else {
            self.cb_set(number, mode);
        }
    }

    fn cb_instr(&mut self)
        requires
            old(self)@.wf(),
        ensures
            final(self)@ == old(self)@.cb_instr(),
            final(self)@.wf(),
    {
        proof {
            reveal(Z80View::cb_instr);
        }
        let opcode = self.fetch8();
        self.execute_cb(opcode);
    }

    fn execute_column_0(&mut self, row: u8)
        requires
            old(self)@.wf(),
        ensures
            final(self)@ == old(self)@.execute_column_0(row),
            final(self)@.wf(),
    {
        proof {
            reveal(Z80View::execute_column_0);
        }
        match row {
            0 => {},
            1 => self.ld_nn_sp(),
            2 => self.stop(),
            3 => self.jr(Cond::NONE),
            _ => self.jr(cond_of(row)),
        }
    }

    fn execute_column_2(&mut self, row: u8)
        requires
            old(self)@.wf(),
        ensures
            final(self)@ == old(self)@.execute_column_2(row),
            final(self)@.wf(),
    {
        proof {
            reveal(Z80View::execute_column_2);
        }
        match row {
            0 => self.ld_nn_a(Reg16::BC),
            1 => self.ld_a_nn(Reg16::BC),
            2 => self.ld_nn_a(Reg16::DE),
            3 => self.ld_a_nn(Reg16::DE),
            4 => self.ld_hlpp_a(),
            5 => self.ld_a_hlpp(),
            6 => self.ld_hlmp_a(),
            _ => self.ld_a_hlmp(),
        }
    }

    fn execute_column_7(&mut self, row: u8)
        requires
            old(self)@.wf(),
        ensures
            final(self)@ == old(self)@.execute_column_7(row),
            final(self)@.wf(),
    {
        proof {
            reveal(Z80View::execute_column_7);
        }
        match row {
            0 => self.rlca(),
            1 => self.rrca(),
            2 => self.rla(),
            3 => self.rra(),
            4 => self.daa(),
            5 => self.cpl(),
            6 => self.scf(),
            _ => self.ccf(),
        }
    }

    fn execute_low(&mut self, opcode: u8)
        requires
            old(self)@.wf(),
            opcode < 0x40,
        ensures
            final(self)@ == old(self)@.execute_low(opcode),
            final(self)@.wf(),
    {
        proof {
            reveal(Z80View::execute_low);
        }
        let row = opcode / 8;
        match opcode % 8 {
            0 => self.execute_column_0(row),
            1 => if row % 2 == 0 {
                self.ld_imm16(pair_of(row / 2, false))
            } else {
                self.add_hl_nn(pair_of(row / 2, false))
            },
            2 => self.execute_column_2(row),
            3 => if row % 2 == 0 {
                self.inc16(pair_of(row / 2, false))
            } else {
                self.dec16(pair_of(row / 2, false))
            },
            4 => self.inc(operand(row)),
            5 => self.dec(operand(row)),
            6 => if opcode == 0x36 {
                self.ld_hlp_imm()
            } else {
                self.ld_imm(operand(row))
            },
            _ => self.execute_column_7(row),
        }
    }

    fn execute_high_misc(&mut self, opcode: u8)
        requires
            old(self)@.wf(),
        ensures
            final(self)@ == old(self)@.execute_high_misc(opcode),
            final(self)@.wf(),
    {
        proof {
            reveal(Z80View::execute_high_misc);
        }
        match opcode {
            0xe0 => self.ldh_n_a(),
            0xe8 => self.add_sp_n(),
            0xf0 => self.ldh_a_n(),
            0xf8 => self.ld_hl_sp_n(),
            0xc9 => self.ret(Cond::NONE),
            0xd9 => self.reti(),
            0xe9 => self.jp_hl(),
            0xf9 => self.ld_sp_hl(),
            0xe2 => self.ld_cp_a(),
            0xea => self.ld_imm16_a(),
            0xf2 => self.ld_a_cp(),
            _ => self.ld_a_imm16(),
        }
    }

    fn execute_high_control(&mut self, opcode: u8)
        requires
            old(self)@.wf(),
        ensures
            final(self)@ == old(self)@.execute_high_control(opcode),
            final(self)@.wf(),
    {
        proof {
            reveal(Z80View::execute_high_control);
        }
        match opcode {
            0xc3 => self.jp(Cond::NONE),
            0xcb => self.cb_instr(),
            0xf3 => self.di(),
            0xfb => self.ei(),
            _ => self.call(Cond::NONE),
        }
    }

    fn execute_high(&mut self, opcode: u8)
        requires
            old(self)@.wf(),
            opcode >= 0xc0,
        ensures
            final(self)@ == old(self)@.execute_high(opcode),
            final(self)@.wf(),
    {
        proof {
            reveal(Z80View::execute_high);
        }
        let row = (opcode / 8) % 8;
        let column = opcode % 8;
        if column == 6 {
            self.alu(row, AddressingMode::IMM);
        } else if column == 7 {
            self.rst(row as u16 * 8);
        } else if column == 0 && row < 4 {
            self.ret(cond_of(row));
        } else if column == 2 && row < 4 {
            self.jp(cond_of(row));
        } else if column == 4 {
            self.call(cond_of(row));
        } else if column == 1 && row % 2 == 0 {
            self.pop_nn(pair_of(row / 2, true));
        } else if column == 5 && row % 2 == 0 {
            self.push_nn(pair_of(row / 2, true));
        } else if column <= 2 {
            self.execute_high_misc(opcode);
        } else {
            self.execute_high_control(opcode);
        }
    }

    /// Executes the instruction that a defined opcode names; its operands
    /// are fetched at PC.
    pub fn execute(&mut self, opcode: u8)
        requires
            old(self)@.wf(),
            spec_opcode_defined(opcode),
        ensures
            final(self)@ == old(self)@.execute(opcode),
            final(self)@.wf(),
    {
        proof {
            reveal(Z80View::execute);
        }
        if opcode < 0x40 {
            self.execute_low(opcode);
        } else if opcode == 0x76 {
            self.halt();
        } else if opcode < 0x80 {
            self.ld_n_n(operand(opcode / 8), operand(opcode));
        } else if opcode < 0xc0 {
            self.alu(opcode / 8, operand(opcode));
        } else {
            self.execute_high(opcode);
        }
    }

    fn execute_instruction(&mut self) -> (r: Result<(), CpuError>)
        requires
            old(self)@.wf(),
        ensures
            (final(self)@, r) == old(self)@.execute_instruction(),
            final(self)@.wf(),
    {
        proof {
            reveal(Z80View::execute_instruction);
        }
        let opcode = self.fetch8();
        if !opcode_defined(opcode) {
            return Err(CpuError::UnknownOpcode(opcode));
        }
        self.execute(opcode);
        Ok(())
    }

    /// Clears the flag of an interrupt and dispatches the CPU to its vector.
    fn serve(&mut self, flagged: u8, bit: u8)
        requires
            old(self)@.wf(),
        ensures
            final(self)@ == old(self)@.with_bus(
                old(self)@.bus.write(0xff0f, flagged & !bit),
            ).interrupt(spec_vector(bit)),
            final(self)@.wf(),
    {
        self.bus_write(0xff0f, flagged & !bit);
        self.interrupt(vector(bit));
    }

    fn check_interrupts(&mut self) -> (r: bool)
        requires
            old(self)@.wf(),
        ensures
            (final(self)@, r) == old(self)@.check_interrupts(),
            final(self)@.wf(),
    {
        proof {
            reveal(Z80View::check_interrupts);
        }
        let enabled = self.bus_read(0xffff);
        let flagged = self.bus_read(0xff0f);
        let bit = first_interrupt(enabled & flagged);
        self.set_cpu(CpuState { halt: self.cpu.halt && bit == 0, ..self.cpu });
        if self.cpu.ime && bit != 0 {
            self.serve(flagged, bit);
            return true;
        }
        bit != 0
    }

    fn end_step(&mut self)
        ensures
            final(self)@ == old(self)@.end_step(),
            old(self)@.wf() ==> final(self)@.wf(),
    {
        if self.cpu.ei_delay != 0 {
            self.set_cpu(
                CpuState {
                    ime: self.cpu.ime || self.cpu.ei_delay == 1,
                    ei_delay: self.cpu.ei_delay - 1,
                    ..self.cpu
                },
            );
        }
    }

    /// Runs the machine for one step: the interrupt check, then one
    /// instruction, or one idle machine cycle while halted. An undefined
    /// opcode is reported as an error.
    pub fn run(&mut self) -> (r: Result<(), CpuError>)
        requires
            old(self)@.wf(),
        ensures
            (final(self)@, r) == old(self)@.run(),
            final(self)@.wf(),
    {
        proof {
            reveal(Z80View::run);
        }
        let _ = self.check_interrupts();
        if self.cpu.halt {
            self.tick();
            self.end_step();
            return Ok(());
        }
        let result = self.execute_instruction();
        self.end_step();
        result
    }
}

} // verus!
