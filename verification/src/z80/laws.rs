//! Round-trip laws of the instruction set: what was stored reads back, and
//! what was done twice is undone.

use vstd::prelude::*;
use crate::bits::{lemma_involutions, lemma_pair};
use crate::bus::BusView;
use crate::z80::alu::{spec_alu8, spec_swap8};
use crate::z80::registers::{Reg16, Registers};
use crate::z80::{AddressingMode, Z80View};

verus! {

/// The address behind an address; the address space wraps.
pub open spec fn next(address: u16) -> u16 {
    ((address + 1) % 0x10000) as u16
}

/// The address in front of an address; the address space wraps.
pub open spec fn previous(address: u16) -> u16 {
    ((address - 1) % 0x10000) as u16
}

/// A memory read gives the byte that the address holds and leaves the
/// memories alone.
pub proof fn lemma_read8(s: Z80View, address: u16)
    requires
        s.bus.holds_writes(address),
    ensures
        s.read8(address).1 == s.bus.stored(address),
        s.read8(address).0.bus.same_memory(s.bus),
        s.read8(address).0.cpu == s.cpu,
{
    BusView::lemma_tick_keeps_memory(s.bus);
    BusView::lemma_same_memory(s.bus, s.bus.tick(), address);
    BusView::lemma_read_keeps_memory(s.bus.tick(), address);
}

/// A memory write stores the byte at an address that holds writes and
/// leaves the bytes next to it alone.
pub proof fn lemma_write8(s: Z80View, address: u16, value: u8)
    requires
        s.bus.memory_wf(),
        s.bus.holds_writes(address),
    ensures
        s.write8(address, value).bus.memory_wf(),
        s.write8(address, value).cpu == s.cpu,
        s.write8(address, value).bus.stored(address) == value,
        forall|other: u16| #[trigger]
            s.write8(address, value).bus.holds_writes(other) == s.bus.holds_writes(other),
        s.bus.holds_writes(next(address)) ==> s.write8(address, value).bus.stored(next(address))
            == s.bus.stored(next(address)),
        s.bus.holds_writes(previous(address)) ==> s.write8(address, value).bus.stored(
            previous(address),
        ) == s.bus.stored(previous(address)),
{
    let ticked = s.bus.tick();
    BusView::lemma_tick_keeps_memory(s.bus);
    BusView::lemma_same_memory(s.bus, ticked, address);
    BusView::lemma_write_memory(ticked, address, value);
    assert forall|other: u16| #[trigger]
        s.write8(address, value).bus.holds_writes(other) == s.bus.holds_writes(other) by {
        assert(ticked.write(address, value).holds_writes(other) == ticked.holds_writes(other));
    }
    if s.bus.holds_writes(next(address)) {
        BusView::lemma_same_memory(s.bus, ticked, next(address));
    }
    if s.bus.holds_writes(previous(address)) {
        BusView::lemma_same_memory(s.bus, ticked, previous(address));
    }
}

/// A byte written to an address that holds writes reads back.
pub proof fn lemma_write8_read8(s: Z80View, address: u16, value: u8)
    requires
        s.bus.memory_wf(),
        s.bus.holds_writes(address),
    ensures
        s.write8(address, value).read8(address).1 == value,
        s.write8(address, value).read8(address).0.cpu == s.cpu,
{
    lemma_write8(s, address, value);
    assert(s.write8(address, value).bus.holds_writes(address) == s.bus.holds_writes(address));
    lemma_read8(s.write8(address, value), address);
}

/// Two bytes written to two addresses next to each other that hold writes
/// read back as the same 16-bit value.
pub proof fn lemma_write16_read16(s: Z80View, address: u16, value: u16)
    requires
        s.bus.memory_wf(),
        s.bus.holds_writes(address),
        s.bus.holds_writes(next(address)),
    ensures
        s.write16(address, value).read16(address).1 == value,
        s.write16(address, value).read16(address).0.cpu == s.cpu,
{
    reveal(Z80View::write16);
    reveal(Z80View::read16);
    let lo = value as u8;
    let hi = (value >> 8) as u8;
    lemma_write8(s, address, lo);
    let first = s.write8(address, lo);
    assert(first.bus.holds_writes(next(address)) == s.bus.holds_writes(next(address)));
    assert(first.bus.holds_writes(address) == s.bus.holds_writes(address));
    lemma_write8(first, next(address), hi);
    let second = first.write8(next(address), hi);
    assert(previous(next(address)) == address);
    assert(second.bus.holds_writes(address) == first.bus.holds_writes(address));
    assert(second.bus.holds_writes(next(address)) == first.bus.holds_writes(next(address)));
    assert(second.bus.stored(address) == lo);
    assert(second.bus.stored(next(address)) == hi);
    lemma_read8(second, address);
    let third = second.read8(address).0;
    BusView::lemma_same_memory(second.bus, third.bus, next(address));
    lemma_read8(third, next(address));
    lemma_pair(0, 0, value);
}

/// Whether the two bytes below SP hold writes.
pub open spec fn stack_holds_writes(s: Z80View) -> bool {
    &&& s.bus.holds_writes(previous(s.cpu.regs.sp))
    &&& s.bus.holds_writes(previous(previous(s.cpu.regs.sp)))
}

/// A value pushed on a stack that holds writes pops back, and SP returns
/// to where it stood.
pub proof fn lemma_push16_pop16(s: Z80View, value: u16)
    requires
        s.bus.memory_wf(),
        stack_holds_writes(s),
    ensures
        s.push16(value).pop16().1 == value,
        s.push16(value).pop16().0.cpu == s.cpu,
{
    reveal(Z80View::push16);
    reveal(Z80View::push8);
    reveal(Z80View::pop16);
    reveal(Z80View::pop8);
    let sp = s.cpu.regs.sp;
    let top = previous(sp);
    let low = previous(top);
    let lo = value as u8;
    let hi = (value >> 8) as u8;
    assert(next(low) == top && next(top) == sp && previous(top) == low);
    let s1 = s.with_regs(Registers { sp: top, ..s.cpu.regs });
    lemma_write8(s1, top, hi);
    let first = s1.write8(top, hi);
    assert(first == s.push8(hi));
    assert(first.bus.holds_writes(low) == s1.bus.holds_writes(low));
    assert(first.bus.holds_writes(top) == s1.bus.holds_writes(top));
    let s2 = first.with_regs(Registers { sp: low, ..first.cpu.regs });
    lemma_write8(s2, low, lo);
    let second = s2.write8(low, lo);
    assert(second == s.push16(value));
    assert(second.bus.holds_writes(low) == s2.bus.holds_writes(low));
    assert(second.bus.holds_writes(top) == s2.bus.holds_writes(top));
    assert(second.bus.stored(low) == lo);
    assert(second.bus.stored(top) == hi);
    let s3 = second.with_regs(Registers { sp: top, ..second.cpu.regs });
    lemma_read8(s3, low);
    let third = s3.read8(low);
    assert(third == second.pop8());
    assert(third.1 == lo);
    BusView::lemma_same_memory(s3.bus, third.0.bus, top);
    let s4 = third.0.with_regs(Registers { sp, ..third.0.cpu.regs });
    lemma_read8(s4, top);
    let fourth = s4.read8(top);
    assert(fourth == third.0.pop8());
    assert(fourth.1 == hi);
    lemma_pair(0, 0, value);
    assert(s4.cpu == s.cpu);
}

/// PUSH rr and then POP rr, on a stack that holds writes, leaves every
/// register as it was.
pub proof fn lemma_push_pop(s: Z80View, reg: Reg16)
    requires
        s.bus.memory_wf(),
        stack_holds_writes(s),
    ensures
        s.push_nn(reg).pop_nn(reg).cpu == s.cpu,
{
    reveal(Z80View::push_nn);
    reveal(Z80View::pop_nn);
    BusView::lemma_tick_keeps_memory(s.bus);
    BusView::lemma_same_memory(s.bus, s.tick().bus, previous(s.cpu.regs.sp));
    BusView::lemma_same_memory(s.bus, s.tick().bus, previous(previous(s.cpu.regs.sp)));
    lemma_push16_pop16(s.tick(), s.cpu.regs.spec_read16(reg));
    Registers::lemma_write_after_read(s.cpu.regs, reg);
}

/// LD (a16),SP leaves SP as it was, and where the two bytes of the address
/// hold writes, reading them back gives SP.
pub proof fn lemma_store_sp(s: Z80View)
    requires
        s.bus.memory_wf(),
    ensures
        s.ld_nn_sp().cpu.regs.sp == s.cpu.regs.sp,
        ({
            let fetched = s.fetch16();
            fetched.0.bus.holds_writes(fetched.1) && fetched.0.bus.holds_writes(next(fetched.1))
                ==> s.ld_nn_sp().read16(fetched.1).1 == s.cpu.regs.sp
        }),
{
    reveal(Z80View::ld_nn_sp);
    reveal(Z80View::fetch16);
    reveal(Z80View::read16);
    reveal(Z80View::write16);
    let fetched = s.fetch16();
    let address = fetched.1;
    let after = fetched.0;
    assert(after.cpu.regs.sp == s.cpu.regs.sp);
    assert(after.bus.same_memory(s.bus)) by {
        let s0 = s.imm16().0;
        BusView::lemma_tick_keeps_memory(s0.bus);
        BusView::lemma_read_keeps_memory(s0.bus.tick(), s.cpu.regs.pc);
        let s1 = s0.read8(s.cpu.regs.pc).0;
        BusView::lemma_tick_keeps_memory(s1.bus);
        BusView::lemma_read_keeps_memory(s1.bus.tick(), next(s.cpu.regs.pc));
    }
    if after.bus.holds_writes(address) && after.bus.holds_writes(next(address)) {
        lemma_write16_read16(after, address, s.cpu.regs.sp);
    }
}

/// Whether an operand is one of the seven registers.
pub open spec fn is_register(mode: AddressingMode) -> bool {
    mode != AddressingMode::HLP && mode != AddressingMode::IMM
}

/// Arithmetic on A reads its operand and then touches nothing but A and F,
/// which it leaves as the operation's contract says.
pub proof fn lemma_alu(s: Z80View, operation: u8, mode: AddressingMode)
    ensures
        ({
            let (read, value) = s.read_mode(mode);
            let r = spec_alu8(operation, read.cpu.regs.a, value, read.cpu.regs.f.carry);
            s.alu(operation, mode) == read.with_regs(
                Registers { a: r.0, f: r.1, ..read.cpu.regs },
            )
        }),
{
    reveal(Z80View::alu);
    reveal(Z80View::add);
    reveal(Z80View::adc);
    reveal(Z80View::sub);
    reveal(Z80View::sbc);
    reveal(Z80View::and);
    reveal(Z80View::xor);
    reveal(Z80View::or);
    reveal(Z80View::cp);
}

/// Arithmetic on a register operand touches nothing but A and F, and
/// leaves them as the operation's contract says.
pub proof fn lemma_alu_register(s: Z80View, operation: u8, mode: AddressingMode)
    requires
        is_register(mode),
    ensures
        ({
            let r = spec_alu8(operation, s.cpu.regs.a, s.register(mode), s.cpu.regs.f.carry);
            s.alu(operation, mode) == s.with_regs(Registers { a: r.0, f: r.1, ..s.cpu.regs })
        }),
{
    lemma_alu(s, operation, mode);
    reveal(Z80View::read_mode);
}

/// SWAP r twice leaves every register but F as it was, and the rest of the
/// machine too.
pub proof fn lemma_swap_twice(s: Z80View, mode: AddressingMode)
    requires
        is_register(mode),
    ensures
        s.cb_swap(mode).cb_swap(mode).bus == s.bus,
        (Registers { f: s.cpu.regs.f, ..s.cb_swap(mode).cb_swap(mode).cpu.regs }) == s.cpu.regs,
        s.cb_swap(mode).cb_swap(mode).register(mode) == s.register(mode),
{
    reveal(Z80View::cb_swap);
    reveal(Z80View::read_mode);
    reveal(Z80View::write_mode);
    lemma_involutions(s.register(mode));
}

/// SWAP (HL) twice leaves the byte that HL points to as it was, where that
/// address holds writes, and every register but F.
pub proof fn lemma_swap_memory_twice(s: Z80View)
    requires
        s.bus.memory_wf(),
        s.bus.holds_writes(s.cpu.regs.spec_read16(Reg16::HL)),
    ensures
        ({
            let twice = s.cb_swap(AddressingMode::HLP).cb_swap(AddressingMode::HLP);
            &&& twice.bus.stored(s.cpu.regs.spec_read16(Reg16::HL)) == s.bus.stored(
                s.cpu.regs.spec_read16(Reg16::HL),
            )
            &&& (Registers { f: s.cpu.regs.f, ..twice.cpu.regs }) == s.cpu.regs
        }),
{
    reveal(Z80View::cb_swap);
    reveal(Z80View::read_mode);
    reveal(Z80View::write_mode);
    let hl = s.cpu.regs.spec_read16(Reg16::HL);
    let value = s.bus.stored(hl);
    lemma_involutions(value);
    lemma_read8(s, hl);
    let read = s.read8(hl).0;
    BusView::lemma_same_memory(s.bus, read.bus, hl);
    lemma_write8(read, hl, spec_swap8(value).0);
    let once = s.cb_swap(AddressingMode::HLP);
    assert(once.bus.stored(hl) == spec_swap8(value).0);
    assert(once.bus.holds_writes(hl));
    assert(once.cpu.regs.spec_read16(Reg16::HL) == hl);
    lemma_read8(once, hl);
    let read_again = once.read8(hl).0;
    BusView::lemma_same_memory(once.bus, read_again.bus, hl);
    lemma_write8(read_again, hl, value);
}

/// CPL twice leaves every register but F as it was, and the rest of the
/// machine too.
pub proof fn lemma_cpl_twice(s: Z80View)
    ensures
        s.cpl().cpl().bus == s.bus,
        (Registers { f: s.cpu.regs.f, ..s.cpl().cpl().cpu.regs }) == s.cpu.regs,
{
    reveal(Z80View::cpl);
    lemma_involutions(s.cpu.regs.a);
}

/// A pop into AF leaves the low nibble of F clear, whatever lay on the
/// stack.
pub proof fn lemma_pop_af(s: Z80View)
    ensures
        s.pop_nn(Reg16::AF).cpu.regs.spec_read16(Reg16::AF) & 0x000f == 0,
{
    Registers::lemma_af_low_nibble(s.pop_nn(Reg16::AF).cpu.regs);
}

} // verus!
