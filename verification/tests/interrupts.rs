use gameboy::controller::Button;
use gameboy::z80::registers::Reg16;
use gameboy::Gameboy;

fn rom_with(code: &[u8]) -> Vec<u8> {
    let mut rom = vec![0u8; 0x8000];
    rom[0x100..0x100 + code.len()].copy_from_slice(code);
    rom
}

/// A bootrom whose interrupt vectors hold a jump to themselves.
fn parking_bootrom() -> Vec<u8> {
    let mut bootrom = vec![0u8; 0x100];
    for vector in [0x40usize, 0x48, 0x50, 0x58, 0x60] {
        bootrom[vector] = 0x18;
        bootrom[vector + 1] = 0xfe;
    }
    bootrom
}

fn machine(code: &[u8], ime: bool) -> Gameboy {
    let mut gb = Gameboy::new(rom_with(code), parking_bootrom()).unwrap();
    let mut state = gb.cpu().state();
    state.regs.pc = 0x100;
    state.regs.sp = 0xd000;
    state.ime = ime;
    gb.cpu().set_state(state);
    gb
}

#[test]
fn timer_overflow_is_served_at_0x50() {
    let mut gb = machine(&[0x00], true);
    gb.cpu().bus().write(0xff06, 0xfe);
    gb.cpu().bus().write(0xff05, 0xff);
    gb.cpu().bus().write(0xff07, 0x05);
    gb.cpu().bus().write(0xffff, 0x04);
    for _ in 0..3 {
        gb.cpu().bus().tick();
    }
    assert_eq!(gb.cpu().bus().read(0xff05), 0xff);
    assert_eq!(gb.cpu().bus().read(0xff0f) & 0x04, 0x00);
    gb.cpu().bus().tick();
    assert_eq!(gb.cpu().bus().read(0xff05), 0xfe);
    for _ in 0..60 {
        gb.cpu().bus().tick();
    }
    assert_eq!(gb.cpu().bus().read(0xff0f) & 0x04, 0x04);
    assert_eq!(gb.run(), Ok(()));
    let state = gb.cpu().state();
    assert_eq!(state.regs.pc, 0x50);
    assert_eq!(state.regs.sp, 0xcffe);
    assert!(!state.ime);
    assert_eq!(gb.cpu().bus().read(0xcffe), 0x00);
    assert_eq!(gb.cpu().bus().read(0xcfff), 0x01);
}

#[test]
fn the_lowest_numbered_interrupt_is_served_first() {
    for (flagged, enabled, vector, left) in [
        (0x1fu8, 0x1fu8, 0x40u16, 0x1eu8),
        (0x1e, 0x1f, 0x48, 0x1c),
        (0x1c, 0x1f, 0x50, 0x18),
        (0x18, 0x1f, 0x58, 0x10),
        (0x10, 0x1f, 0x60, 0x00),
        (0x1f, 0x10, 0x60, 0x0f),
        (0x03, 0x02, 0x48, 0x01),
    ] {
        let mut gb = machine(&[0x00], true);
        gb.cpu().bus().write(0xff0f, flagged);
        gb.cpu().bus().write(0xffff, enabled);
        assert_eq!(gb.run(), Ok(()));
        assert_eq!(gb.cpu().state().regs.pc, vector);
        assert_eq!(gb.cpu().bus().read(0xff0f), left);
    }
}

#[test]
fn nothing_is_served_while_the_master_enable_is_off() {
    let mut gb = machine(&[0x00, 0x00], false);
    gb.cpu().bus().write(0xff0f, 0x01);
    gb.cpu().bus().write(0xffff, 0x01);
    assert_eq!(gb.run(), Ok(()));
    assert_eq!(gb.cpu().state().regs.pc, 0x101);
    assert_eq!(gb.cpu().bus().read(0xff0f), 0x01);
}

#[test]
fn a_flag_that_is_not_enabled_is_not_served() {
    let mut gb = machine(&[0x00], true);
    gb.cpu().bus().write(0xff0f, 0x01);
    gb.cpu().bus().write(0xffff, 0x02);
    assert_eq!(gb.run(), Ok(()));
    assert_eq!(gb.cpu().state().regs.pc, 0x101);
}

#[test]
fn ei_takes_effect_after_the_next_instruction() {
    let mut gb = machine(&[0xfb, 0x00, 0x00], false);
    gb.cpu().bus().write(0xff0f, 0x01);
    gb.cpu().bus().write(0xffff, 0x01);
    assert_eq!(gb.run(), Ok(()));
    assert!(!gb.cpu().state().ime);
    assert_eq!(gb.cpu().state().regs.pc, 0x101);
    assert_eq!(gb.run(), Ok(()));
    assert!(gb.cpu().state().ime);
    assert_eq!(gb.cpu().state().regs.pc, 0x102);
    assert_eq!(gb.run(), Ok(()));
    assert_eq!(gb.cpu().state().regs.pc, 0x40);
    assert!(!gb.cpu().state().ime);
    assert_eq!(gb.cpu().bus().read(0xcffe), 0x02);
}

#[test]
fn di_cancels_a_pending_ei() {
    let mut gb = machine(&[0xfb, 0xf3, 0x00, 0x00], false);
    for _ in 0..4 {
        assert_eq!(gb.run(), Ok(()));
    }
    assert!(!gb.cpu().state().ime);
}

#[test]
fn reti_enables_interrupts_at_once() {
    let mut gb = machine(&[0xd9], false);
    let mut state = gb.cpu().state();
    state.regs.sp = 0xc100;
    gb.cpu().set_state(state);
    gb.cpu().bus().write(0xc100, 0x34);
    gb.cpu().bus().write(0xc101, 0x12);
    assert_eq!(gb.run(), Ok(()));
    let state = gb.cpu().state();
    assert!(state.ime);
    assert_eq!(state.regs.pc, 0x1234);
    assert_eq!(state.regs.sp, 0xc102);
}

#[test]
fn halt_idles_until_an_interrupt_is_pending() {
    let mut gb = machine(&[0x76, 0x3c], false);
    assert_eq!(gb.run(), Ok(()));
    assert!(gb.cpu().state().halt);
    for _ in 0..10 {
        assert_eq!(gb.run(), Ok(()));
    }
    assert!(gb.cpu().state().halt);
    assert_eq!(gb.cpu().state().regs.pc, 0x101);
    gb.cpu().bus().write(0xffff, 0x10);
    gb.cpu().bus().ppu().controller().set(Button::A, true);
    assert_eq!(gb.run(), Ok(()));
    let state = gb.cpu().state();
    assert!(!state.halt);
    assert_eq!(state.regs.pc, 0x102);
    assert_eq!(state.regs.a, 0x01);
}

#[test]
fn halt_idles_one_machine_cycle_per_step() {
    let mut gb = machine(&[0x76], false);
    assert_eq!(gb.run(), Ok(()));
    gb.cpu().bus().write(0xff04, 0);
    for _ in 0..63 {
        assert_eq!(gb.run(), Ok(()));
    }
    assert_eq!(gb.cpu().bus().read(0xff04), 0);
    assert_eq!(gb.run(), Ok(()));
    assert_eq!(gb.cpu().bus().read(0xff04), 1);
}

#[test]
fn interrupt_dispatch_takes_five_machine_cycles() {
    let mut gb = machine(&[0x00], true);
    gb.cpu().bus().write(0xffff, 0x01);
    gb.cpu().bus().write(0xff04, 0);
    for _ in 0..56 {
        gb.cpu().bus().tick();
    }
    gb.cpu().bus().write(0xff0f, 0x01);
    assert_eq!(gb.run(), Ok(()));
    assert_eq!(gb.cpu().state().regs.pc, 0x40);
    assert_eq!(gb.cpu().bus().read(0xff04), 1);
    let mut gb = machine(&[0x00], true);
    gb.cpu().bus().write(0xffff, 0x01);
    gb.cpu().bus().write(0xff04, 0);
    for _ in 0..55 {
        gb.cpu().bus().tick();
    }
    gb.cpu().bus().write(0xff0f, 0x01);
    assert_eq!(gb.run(), Ok(()));
    assert_eq!(gb.cpu().bus().read(0xff04), 0);
}

#[test]
fn reset_starts_at_zero_with_interrupts_on() {
    let mut gb = machine(&[0x76], false);
    assert_eq!(gb.run(), Ok(()));
    gb.reset();
    let state = gb.cpu().state();
    assert_eq!(state.regs.pc, 0);
    assert!(state.ime);
    assert!(!state.halt);
    assert_eq!(get_sp(&mut gb), 0xd000);
}

fn get_sp(gb: &mut Gameboy) -> u16 {
    gb.cpu().state().regs.read16(Reg16::SP)
}

#[test]
fn a_boot_program_hands_over_to_the_cartridge() {
    let mut bootrom = vec![0u8; 0x100];
    bootrom[0..3].copy_from_slice(&[0xc3, 0xfc, 0x00]);
    bootrom[0xfc..0x100].copy_from_slice(&[0x3e, 0x01, 0xe0, 0x50]);
    let mut rom = rom_with(&[0x18, 0xfe]);
    rom[0] = 0xaa;
    let mut gb = Gameboy::new(rom, bootrom).unwrap();
    gb.reset();
    assert!(gb.cpu().bus().bootrom_enabled());
    assert_eq!(gb.cpu().bus().read(0x0000), 0xc3);
    let mut steps = 0;
    while gb.cpu().bus().bootrom_enabled() || gb.cpu().state().regs.pc < 0x100 {
        assert_eq!(gb.run(), Ok(()));
        steps += 1;
        assert!(steps <= 15000);
    }
    assert_eq!(steps, 3);
    assert_eq!(gb.cpu().state().regs.pc, 0x100);
    assert_eq!(gb.cpu().bus().read(0x0000), 0xaa);
}
