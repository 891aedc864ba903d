use gameboy::z80::registers::Reg16;
use gameboy::z80::CpuError;
use gameboy::Gameboy;

fn rom_with(code: &[u8]) -> Vec<u8> {
    let mut rom = vec![0u8; 0x8000];
    rom[0x100..0x100 + code.len()].copy_from_slice(code);
    rom
}

fn machine(code: &[u8]) -> Gameboy {
    let mut gb = Gameboy::new(rom_with(code), vec![0u8; 0x100]).unwrap();
    let mut state = gb.cpu().state();
    state.regs.pc = 0x100;
    state.regs.sp = 0xd000;
    gb.cpu().set_state(state);
    gb
}

fn set16(gb: &mut Gameboy, reg: Reg16, value: u16) {
    let mut state = gb.cpu().state();
    state.regs.write16(reg, value);
    gb.cpu().set_state(state);
}

fn get16(gb: &mut Gameboy, reg: Reg16) -> u16 {
    gb.cpu().state().regs.read16(reg)
}

fn pc(gb: &mut Gameboy) -> u16 {
    gb.cpu().state().regs.pc
}

fn peek(gb: &mut Gameboy, address: u16) -> u8 {
    gb.cpu().bus().read(address)
}

fn poke(gb: &mut Gameboy, address: u16, value: u8) {
    gb.cpu().bus().write(address, value);
}

/// Machine cycles that the first instruction of `code` takes, measured on
/// the divider: it is padded with NOPs until the divider's high byte moves.
fn cycles_of(code: &[u8], setup: &dyn Fn(&mut Gameboy)) -> usize {
    for pads in (0..64usize).rev() {
        let mut program = vec![0u8; pads];
        program.extend_from_slice(code);
        let mut gb = machine(&program);
        setup(&mut gb);
        poke(&mut gb, 0xff04, 0);
        for _ in 0..pads + 1 {
            assert_eq!(gb.run(), Ok(()));
        }
        if peek(&mut gb, 0xff04) == 0 {
            return 63 - pads;
        }
    }
    64
}

#[test]
fn add_a_b_sets_half_carry() {
    let mut gb = machine(&[0x80]);
    set16(&mut gb, Reg16::AF, 0x0100);
    set16(&mut gb, Reg16::BC, 0x0f00);
    assert_eq!(gb.run(), Ok(()));
    assert_eq!(get16(&mut gb, Reg16::AF), 0x1020);
}

#[test]
fn add_a_b_wraps_to_zero() {
    let mut gb = machine(&[0x80]);
    set16(&mut gb, Reg16::AF, 0xff00);
    set16(&mut gb, Reg16::BC, 0x0100);
    assert_eq!(gb.run(), Ok(()));
    assert_eq!(get16(&mut gb, Reg16::AF), 0x00b0);
}

#[test]
fn sub_b_borrows_from_high_nibble() {
    let mut gb = machine(&[0x90]);
    set16(&mut gb, Reg16::AF, 0x1000);
    set16(&mut gb, Reg16::BC, 0x0100);
    assert_eq!(gb.run(), Ok(()));
    assert_eq!(get16(&mut gb, Reg16::AF), 0x0f60);
}

#[test]
fn load_through_hl_and_post_increment() {
    let mut gb = machine(&[0x7e, 0x2a]);
    set16(&mut gb, Reg16::HL, 0xc000);
    set16(&mut gb, Reg16::AF, 0x0000);
    poke(&mut gb, 0xc000, 0x42);
    assert_eq!(gb.run(), Ok(()));
    assert_eq!(gb.cpu().state().regs.a, 0x42);
    assert_eq!(get16(&mut gb, Reg16::HL), 0xc000);
    set16(&mut gb, Reg16::AF, 0x0000);
    assert_eq!(gb.run(), Ok(()));
    assert_eq!(gb.cpu().state().regs.a, 0x42);
    assert_eq!(get16(&mut gb, Reg16::HL), 0xc001);
}

#[test]
fn push_then_pop_moves_a_pair_through_the_stack() {
    let mut gb = machine(&[0xc5, 0xd1]);
    set16(&mut gb, Reg16::BC, 0x1234);
    assert_eq!(gb.run(), Ok(()));
    assert_eq!(get16(&mut gb, Reg16::SP), 0xcffe);
    assert_eq!(peek(&mut gb, 0xcfff), 0x12);
    assert_eq!(peek(&mut gb, 0xcffe), 0x34);
    assert_eq!(gb.run(), Ok(()));
    assert_eq!(get16(&mut gb, Reg16::DE), 0x1234);
    assert_eq!(get16(&mut gb, Reg16::SP), 0xd000);
}

#[test]
fn push_then_pop_of_each_pair_changes_nothing() {
    for (push, pop) in [(0xc5u8, 0xc1u8), (0xd5, 0xd1), (0xe5, 0xe1), (0xf5, 0xf1)] {
        let mut gb = machine(&[push, pop]);
        set16(&mut gb, Reg16::AF, 0x12f0);
        set16(&mut gb, Reg16::BC, 0x3456);
        set16(&mut gb, Reg16::DE, 0x789a);
        set16(&mut gb, Reg16::HL, 0xbcde);
        let mut before = gb.cpu().state();
        assert_eq!(gb.run(), Ok(()));
        assert_eq!(gb.run(), Ok(()));
        before.regs.pc = 0x102;
        assert_eq!(gb.cpu().state(), before);
    }
}

#[test]
fn pop_af_drops_the_low_nibble_of_f() {
    let mut gb = machine(&[0xf1]);
    set16(&mut gb, Reg16::SP, 0xc100);
    poke(&mut gb, 0xc100, 0xff);
    poke(&mut gb, 0xc101, 0xab);
    assert_eq!(gb.run(), Ok(()));
    assert_eq!(get16(&mut gb, Reg16::AF), 0xabf0);
    assert_eq!(get16(&mut gb, Reg16::SP), 0xc102);
}

#[test]
fn store_sp_writes_the_low_byte_first() {
    let mut gb = machine(&[0x08, 0x00, 0xc0]);
    set16(&mut gb, Reg16::SP, 0xabcd);
    assert_eq!(gb.run(), Ok(()));
    assert_eq!(peek(&mut gb, 0xc000), 0xcd);
    assert_eq!(peek(&mut gb, 0xc001), 0xab);
    assert_eq!(get16(&mut gb, Reg16::SP), 0xabcd);
    assert_eq!(pc(&mut gb), 0x103);
}

#[test]
fn relative_jumps_count_from_the_next_instruction() {
    let mut gb = machine(&[0x18, 0x05]);
    assert_eq!(gb.run(), Ok(()));
    assert_eq!(pc(&mut gb), 0x107);
    let mut gb = machine(&[0x18, 0xfe]);
    assert_eq!(gb.run(), Ok(()));
    assert_eq!(pc(&mut gb), 0x100);
}

#[test]
fn conditional_jumps_follow_the_flags() {
    for (opcode, f, taken) in [
        (0x20u8, 0x00u16, true),
        (0x20, 0x80, false),
        (0x28, 0x80, true),
        (0x28, 0x00, false),
        (0x30, 0x00, true),
        (0x30, 0x10, false),
        (0x38, 0x10, true),
        (0x38, 0x00, false),
    ] {
        let mut gb = machine(&[opcode, 0x10]);
        set16(&mut gb, Reg16::AF, f);
        assert_eq!(gb.run(), Ok(()));
        assert_eq!(pc(&mut gb), if taken { 0x112 } else { 0x102 }, "opcode {:#x}", opcode);
    }
    for (opcode, f, taken) in [(0xc2u8, 0x00u16, true), (0xca, 0x00, false), (0xd2, 0x10, false), (0xda, 0x10, true)] {
        let mut gb = machine(&[opcode, 0x34, 0x12]);
        set16(&mut gb, Reg16::AF, f);
        assert_eq!(gb.run(), Ok(()));
        assert_eq!(pc(&mut gb), if taken { 0x1234 } else { 0x103 }, "opcode {:#x}", opcode);
    }
}

#[test]
fn call_pushes_the_return_address_and_ret_takes_it_back() {
    let mut code = vec![0u8; 0x20];
    code[0] = 0xcd;
    code[1] = 0x10;
    code[2] = 0x01;
    code[0x10] = 0xc9;
    let mut gb = machine(&code);
    assert_eq!(gb.run(), Ok(()));
    assert_eq!(pc(&mut gb), 0x110);
    assert_eq!(get16(&mut gb, Reg16::SP), 0xcffe);
    assert_eq!(peek(&mut gb, 0xcffe), 0x03);
    assert_eq!(peek(&mut gb, 0xcfff), 0x01);
    assert_eq!(gb.run(), Ok(()));
    assert_eq!(pc(&mut gb), 0x103);
    assert_eq!(get16(&mut gb, Reg16::SP), 0xd000);
}

#[test]
fn rst_jumps_to_its_fixed_address() {
    for (opcode, target) in [(0xc7u8, 0x00u16), (0xcf, 0x08), (0xd7, 0x10), (0xdf, 0x18), (0xe7, 0x20), (0xef, 0x28), (0xf7, 0x30), (0xff, 0x38)] {
        let mut gb = machine(&[opcode]);
        assert_eq!(gb.run(), Ok(()));
        assert_eq!(pc(&mut gb), target);
        assert_eq!(peek(&mut gb, 0xcffe), 0x01);
        assert_eq!(peek(&mut gb, 0xcfff), 0x01);
    }
}

#[test]
fn loads_between_registers_follow_the_opcode_grid() {
    let names = [Reg16::BC, Reg16::DE, Reg16::HL];
    for dest in 0..8u8 {
        for src in 0..8u8 {
            if dest == 6 || src == 6 {
                continue;
            }
            let mut gb = machine(&[0x40 + dest * 8 + src]);
            set16(&mut gb, Reg16::AF, 0x0700);
            for (i, pair) in names.iter().enumerate() {
                let hi = (2 * i) as u16;
                set16(&mut gb, *pair, (hi << 8) | (hi + 1));
            }
            assert_eq!(gb.run(), Ok(()));
            let regs = gb.cpu().state().regs;
            let values = [regs.b, regs.c, regs.d, regs.e, regs.h, regs.l, 0, regs.a];
            for r in 0..8usize {
                if r == 6 {
                    continue;
                }
                let expected = if r == dest as usize { src } else { r as u8 };
                assert_eq!(values[r], expected, "LD {} <- {}", dest, src);
            }
        }
    }
}

#[test]
fn immediate_loads_reach_registers_and_memory() {
    let mut gb = machine(&[0x06, 0x11, 0x3e, 0x22, 0x21, 0x00, 0xc0, 0x36, 0x33, 0x31, 0xfe, 0xff]);
    for _ in 0..5 {
        assert_eq!(gb.run(), Ok(()));
    }
    let regs = gb.cpu().state().regs;
    assert_eq!(regs.b, 0x11);
    assert_eq!(regs.a, 0x22);
    assert_eq!(get16(&mut gb, Reg16::HL), 0xc000);
    assert_eq!(peek(&mut gb, 0xc000), 0x33);
    assert_eq!(regs.sp, 0xfffe);
    assert_eq!(regs.pc, 0x10c);
}

#[test]
fn high_page_loads_reach_the_io_page() {
    let mut gb = machine(&[0xe0, 0x80, 0xf0, 0x81, 0xe2, 0xf2]);
    set16(&mut gb, Reg16::AF, 0x5a00);
    set16(&mut gb, Reg16::BC, 0x0082);
    poke(&mut gb, 0xff81, 0x77);
    assert_eq!(gb.run(), Ok(()));
    assert_eq!(peek(&mut gb, 0xff80), 0x5a);
    assert_eq!(gb.run(), Ok(()));
    assert_eq!(gb.cpu().state().regs.a, 0x77);
    assert_eq!(gb.run(), Ok(()));
    assert_eq!(peek(&mut gb, 0xff82), 0x77);
    poke(&mut gb, 0xff82, 0x99);
    assert_eq!(gb.run(), Ok(()));
    assert_eq!(gb.cpu().state().regs.a, 0x99);
}

#[test]
fn sixteen_bit_counting_wraps_and_keeps_the_flags() {
    let mut gb = machine(&[0x03, 0x1b, 0x33]);
    set16(&mut gb, Reg16::AF, 0x00f0);
    set16(&mut gb, Reg16::BC, 0xffff);
    set16(&mut gb, Reg16::DE, 0x0000);
    set16(&mut gb, Reg16::SP, 0x00ff);
    for _ in 0..3 {
        assert_eq!(gb.run(), Ok(()));
    }
    assert_eq!(get16(&mut gb, Reg16::BC), 0x0000);
    assert_eq!(get16(&mut gb, Reg16::DE), 0xffff);
    assert_eq!(get16(&mut gb, Reg16::SP), 0x0100);
    assert_eq!(get16(&mut gb, Reg16::AF), 0x00f0);
}

#[test]
fn add_hl_keeps_zero_and_carries_out_of_bit_11() {
    let mut gb = machine(&[0x09]);
    set16(&mut gb, Reg16::AF, 0x0080);
    set16(&mut gb, Reg16::HL, 0x0fff);
    set16(&mut gb, Reg16::BC, 0x0001);
    assert_eq!(gb.run(), Ok(()));
    assert_eq!(get16(&mut gb, Reg16::HL), 0x1000);
    assert_eq!(get16(&mut gb, Reg16::AF), 0x00a0);
}

#[test]
fn stack_pointer_arithmetic_sets_flags_from_the_low_byte() {
    let mut gb = machine(&[0xf8, 0x08, 0xe8, 0xff, 0xf9]);
    set16(&mut gb, Reg16::SP, 0xfff8);
    assert_eq!(gb.run(), Ok(()));
    assert_eq!(get16(&mut gb, Reg16::HL), 0x0000);
    assert_eq!(get16(&mut gb, Reg16::AF) & 0xff, 0x30);
    assert_eq!(gb.run(), Ok(()));
    assert_eq!(get16(&mut gb, Reg16::SP), 0xfff7);
    assert_eq!(get16(&mut gb, Reg16::AF) & 0xff, 0x30);
    set16(&mut gb, Reg16::HL, 0xc123);
    assert_eq!(gb.run(), Ok(()));
    assert_eq!(get16(&mut gb, Reg16::SP), 0xc123);
}

#[test]
fn arithmetic_on_an_immediate_and_on_memory() {
    let mut gb = machine(&[0xc6, 0x0f, 0xd6, 0x01, 0xe6, 0xf0, 0xf6, 0x0f, 0xee, 0xff, 0xfe, 0x00, 0x86, 0xce, 0x00]);
    set16(&mut gb, Reg16::AF, 0x0100);
    set16(&mut gb, Reg16::HL, 0xc000);
    poke(&mut gb, 0xc000, 0xff);
    let expected = [0x1020u16, 0x0f60, 0x00a0, 0x0f00, 0xf000, 0xf040, 0xef10, 0xf020];
    for af in expected {
        assert_eq!(gb.run(), Ok(()));
        assert_eq!(get16(&mut gb, Reg16::AF), af);
    }
}

#[test]
fn increment_and_decrement_of_memory_go_through_hl() {
    let mut gb = machine(&[0x34, 0x35, 0x35]);
    set16(&mut gb, Reg16::AF, 0x0010);
    set16(&mut gb, Reg16::HL, 0xc010);
    poke(&mut gb, 0xc010, 0xff);
    assert_eq!(gb.run(), Ok(()));
    assert_eq!(peek(&mut gb, 0xc010), 0x00);
    assert_eq!(get16(&mut gb, Reg16::AF), 0x00b0);
    assert_eq!(gb.run(), Ok(()));
    assert_eq!(peek(&mut gb, 0xc010), 0xff);
    assert_eq!(get16(&mut gb, Reg16::AF), 0x0070);
    assert_eq!(gb.run(), Ok(()));
    assert_eq!(peek(&mut gb, 0xc010), 0xfe);
    assert_eq!(get16(&mut gb, Reg16::AF), 0x0050);
}

#[test]
fn rotates_of_a_always_clear_zero() {
    for (opcode, a, f, result) in [
        (0x07u8, 0x80u16, 0x00u16, 0x0110u16),
        (0x0f, 0x01, 0x00, 0x8010),
        (0x17, 0x80, 0x00, 0x0010),
        (0x17, 0x00, 0x10, 0x0100),
        (0x1f, 0x01, 0x00, 0x0010),
        (0x1f, 0x00, 0x10, 0x8000),
        (0x07, 0x00, 0x80, 0x0000),
    ] {
        let mut gb = machine(&[opcode]);
        set16(&mut gb, Reg16::AF, (a << 8) | f);
        assert_eq!(gb.run(), Ok(()));
        assert_eq!(get16(&mut gb, Reg16::AF), result, "opcode {:#x}", opcode);
    }
}

#[test]
fn prefixed_operations_follow_the_opcode_grid() {
    let mut gb = machine(&[0xcb, 0x37, 0xcb, 0x7c, 0xcb, 0xde, 0xcb, 0x80, 0xcb, 0x11, 0xcb, 0x2a, 0xcb, 0x3b, 0xcb, 0x26]);
    set16(&mut gb, Reg16::AF, 0x1200);
    set16(&mut gb, Reg16::BC, 0xff80);
    set16(&mut gb, Reg16::DE, 0x8101);
    set16(&mut gb, Reg16::HL, 0xc020);
    poke(&mut gb, 0xc020, 0x00);
    assert_eq!(gb.run(), Ok(()));
    assert_eq!(get16(&mut gb, Reg16::AF), 0x2100);
    assert_eq!(gb.run(), Ok(()));
    assert_eq!(get16(&mut gb, Reg16::AF), 0x2120);
    assert_eq!(gb.run(), Ok(()));
    assert_eq!(peek(&mut gb, 0xc020), 0x08);
    assert_eq!(gb.run(), Ok(()));
    assert_eq!(get16(&mut gb, Reg16::BC), 0xfe80);
    assert_eq!(gb.run(), Ok(()));
    assert_eq!(get16(&mut gb, Reg16::BC), 0xfe00);
    assert_eq!(get16(&mut gb, Reg16::AF), 0x2190);
    assert_eq!(gb.run(), Ok(()));
    assert_eq!(get16(&mut gb, Reg16::DE), 0xc001);
    assert_eq!(get16(&mut gb, Reg16::AF), 0x2110);
    assert_eq!(gb.run(), Ok(()));
    assert_eq!(get16(&mut gb, Reg16::DE), 0xc000);
    assert_eq!(get16(&mut gb, Reg16::AF), 0x2190);
    assert_eq!(gb.run(), Ok(()));
    assert_eq!(peek(&mut gb, 0xc020), 0x10);
    assert_eq!(get16(&mut gb, Reg16::AF), 0x2100);
    assert_eq!(pc(&mut gb), 0x110);
}

#[test]
fn swap_twice_and_cpl_twice_give_the_value_back() {
    let mut gb = machine(&[0xcb, 0x30, 0xcb, 0x30, 0x2f, 0x2f]);
    set16(&mut gb, Reg16::AF, 0x5a00);
    set16(&mut gb, Reg16::BC, 0xa7c3);
    for _ in 0..4 {
        assert_eq!(gb.run(), Ok(()));
    }
    assert_eq!(get16(&mut gb, Reg16::BC), 0xa7c3);
    assert_eq!(gb.cpu().state().regs.a, 0x5a);
}

#[test]
fn daa_scf_ccf_and_cpl_by_opcode() {
    let mut gb = machine(&[0x27, 0x37, 0x3f, 0x2f]);
    set16(&mut gb, Reg16::AF, 0x3c00);
    assert_eq!(gb.run(), Ok(()));
    assert_eq!(get16(&mut gb, Reg16::AF), 0x4200);
    assert_eq!(gb.run(), Ok(()));
    assert_eq!(get16(&mut gb, Reg16::AF), 0x4210);
    assert_eq!(gb.run(), Ok(()));
    assert_eq!(get16(&mut gb, Reg16::AF), 0x4200);
    assert_eq!(gb.run(), Ok(()));
    assert_eq!(get16(&mut gb, Reg16::AF), 0xbd60);
}

#[test]
fn stop_takes_two_bytes() {
    let mut gb = machine(&[0x10, 0x00]);
    let before = gb.cpu().state();
    assert_eq!(gb.run(), Ok(()));
    let mut expected = before;
    expected.regs.pc = 0x102;
    assert_eq!(gb.cpu().state(), expected);
}

#[test]
fn an_undefined_opcode_is_reported() {
    for opcode in [0xd3u8, 0xdb, 0xdd, 0xe3, 0xe4, 0xeb, 0xec, 0xed, 0xf4, 0xfc, 0xfd] {
        let mut gb = machine(&[opcode]);
        assert_eq!(gb.run(), Err(CpuError::UnknownOpcode(opcode)));
        assert_eq!(pc(&mut gb), 0x101);
    }
}

#[test]
fn every_defined_opcode_runs() {
    for opcode in 0..=255u8 {
        let mut gb = machine(&[opcode, 0x00, 0xc0]);
        set16(&mut gb, Reg16::HL, 0xc000);
        let defined = gameboy::z80::opcode_defined(opcode);
        assert_eq!(gb.run().is_ok(), defined, "opcode {:#x}", opcode);
    }
    for opcode in 0..=255u8 {
        let mut gb = machine(&[0xcb, opcode]);
        set16(&mut gb, Reg16::HL, 0xc000);
        assert_eq!(gb.run(), Ok(()));
        assert_eq!(pc(&mut gb), 0x102);
    }
}

#[test]
fn instructions_take_their_machine_cycles() {
    let none = |_: &mut Gameboy| {};
    let zero = |gb: &mut Gameboy| set16(gb, Reg16::AF, 0x0080);
    let hl = |gb: &mut Gameboy| set16(gb, Reg16::HL, 0xc000);
    assert_eq!(cycles_of(&[0x00], &none), 1);
    assert_eq!(cycles_of(&[0x41], &none), 1);
    assert_eq!(cycles_of(&[0x46], &hl), 2);
    assert_eq!(cycles_of(&[0x70], &hl), 2);
    assert_eq!(cycles_of(&[0x06, 0x01], &none), 2);
    assert_eq!(cycles_of(&[0x36, 0x01], &hl), 3);
    assert_eq!(cycles_of(&[0x01, 0x34, 0x12], &none), 3);
    assert_eq!(cycles_of(&[0x03], &none), 2);
    assert_eq!(cycles_of(&[0x0b], &none), 2);
    assert_eq!(cycles_of(&[0x09], &none), 2);
    assert_eq!(cycles_of(&[0x34], &hl), 3);
    assert_eq!(cycles_of(&[0x80], &none), 1);
    assert_eq!(cycles_of(&[0x86], &hl), 2);
    assert_eq!(cycles_of(&[0xc6, 0x01], &none), 2);
    assert_eq!(cycles_of(&[0x18, 0x00], &none), 3);
    assert_eq!(cycles_of(&[0x20, 0x00], &none), 3);
    assert_eq!(cycles_of(&[0x20, 0x00], &zero), 2);
    assert_eq!(cycles_of(&[0xc3, 0x03, 0x01], &none), 4);
    assert_eq!(cycles_of(&[0xc2, 0x03, 0x01], &zero), 3);
    assert_eq!(cycles_of(&[0xe9], &none), 1);
    assert_eq!(cycles_of(&[0xcd, 0x03, 0x01], &none), 6);
    assert_eq!(cycles_of(&[0xc4, 0x03, 0x01], &zero), 3);
    assert_eq!(cycles_of(&[0xc9], &none), 4);
    assert_eq!(cycles_of(&[0xc8], &zero), 5);
    assert_eq!(cycles_of(&[0xc0], &zero), 2);
    assert_eq!(cycles_of(&[0xd9], &none), 4);
    assert_eq!(cycles_of(&[0xc5], &none), 4);
    assert_eq!(cycles_of(&[0xc1], &none), 3);
    assert_eq!(cycles_of(&[0xc7], &none), 4);
    assert_eq!(cycles_of(&[0xe0, 0x80], &none), 3);
    assert_eq!(cycles_of(&[0xf0, 0x80], &none), 3);
    assert_eq!(cycles_of(&[0xe2], &none), 2);
    assert_eq!(cycles_of(&[0xea, 0x00, 0xc0], &none), 4);
    assert_eq!(cycles_of(&[0xfa, 0x00, 0xc0], &none), 4);
    assert_eq!(cycles_of(&[0x08, 0x00, 0xc0], &none), 5);
    assert_eq!(cycles_of(&[0xe8, 0x01], &none), 4);
    assert_eq!(cycles_of(&[0xf8, 0x01], &none), 3);
    assert_eq!(cycles_of(&[0xf9], &none), 2);
    assert_eq!(cycles_of(&[0xcb, 0x00], &none), 2);
    assert_eq!(cycles_of(&[0xcb, 0x06], &hl), 4);
    assert_eq!(cycles_of(&[0xcb, 0x46], &hl), 3);
    assert_eq!(cycles_of(&[0xcb, 0xc6], &hl), 4);
    assert_eq!(cycles_of(&[0xf3], &none), 1);
    assert_eq!(cycles_of(&[0x10, 0x00], &none), 2);
}

#[test]
fn swap_of_memory_twice_gives_the_byte_back() {
    let mut gb = machine(&[0xcb, 0x36, 0xcb, 0x36]);
    set16(&mut gb, Reg16::HL, 0xc080);
    poke(&mut gb, 0xc080, 0xa5);
    assert_eq!(gb.run(), Ok(()));
    assert_eq!(peek(&mut gb, 0xc080), 0x5a);
    assert_eq!(gb.run(), Ok(()));
    assert_eq!(peek(&mut gb, 0xc080), 0xa5);
}

#[test]
fn a_stack_in_rom_does_not_hold_what_is_pushed() {
    let mut gb = machine(&[0xc5, 0xd1]);
    set16(&mut gb, Reg16::SP, 0x4000);
    set16(&mut gb, Reg16::BC, 0x1234);
    set16(&mut gb, Reg16::DE, 0x5678);
    assert_eq!(gb.run(), Ok(()));
    assert_eq!(gb.run(), Ok(()));
    assert_eq!(get16(&mut gb, Reg16::DE), 0x0000);
    assert_eq!(get16(&mut gb, Reg16::SP), 0x4000);
}
