use gameboy::z80::registers::{Flags, Reg16, Registers};

#[test]
fn af_reads_back_without_its_low_nibble() {
    for value in [0x0000u16, 0x00ff, 0x12ff, 0xffff, 0xab0f, 0x1234] {
        let mut regs = Registers::new();
        regs.write16(Reg16::AF, value);
        assert_eq!(regs.read16(Reg16::AF), value & 0xfff0);
        assert_eq!(regs.read16(Reg16::AF) & 0x000f, 0);
    }
}

#[test]
fn pairs_concatenate_high_and_low() {
    let mut regs = Registers::new();
    regs.b = 0x12;
    regs.c = 0x34;
    regs.d = 0x56;
    regs.e = 0x78;
    regs.h = 0x9a;
    regs.l = 0xbc;
    regs.sp = 0xfffe;
    assert_eq!(regs.read16(Reg16::BC), 0x1234);
    assert_eq!(regs.read16(Reg16::DE), 0x5678);
    assert_eq!(regs.read16(Reg16::HL), 0x9abc);
    assert_eq!(regs.read16(Reg16::SP), 0xfffe);
}

#[test]
fn pair_writes_split_into_bytes() {
    let mut regs = Registers::new();
    regs.write16(Reg16::BC, 0xa1b2);
    regs.write16(Reg16::DE, 0xc3d4);
    regs.write16(Reg16::HL, 0xe5f6);
    regs.write16(Reg16::SP, 0x0708);
    assert_eq!((regs.b, regs.c, regs.d, regs.e, regs.h, regs.l), (0xa1, 0xb2, 0xc3, 0xd4, 0xe5, 0xf6));
    assert_eq!(regs.sp, 0x0708);
    assert_eq!(regs.with16(Reg16::HL, 0x0102).read16(Reg16::HL), 0x0102);
}

#[test]
fn flag_byte_holds_the_four_flags_in_its_high_nibble() {
    assert_eq!(Flags::empty().bits(), 0x00);
    assert_eq!(Flags { zero: true, subtract: false, half_carry: false, carry: false }.bits(), 0x80);
    assert_eq!(Flags { zero: false, subtract: true, half_carry: false, carry: false }.bits(), 0x40);
    assert_eq!(Flags { zero: false, subtract: false, half_carry: true, carry: false }.bits(), 0x20);
    assert_eq!(Flags { zero: false, subtract: false, half_carry: false, carry: true }.bits(), 0x10);
    for bits in 0..=255u8 {
        assert_eq!(Flags::from_bits_truncate(bits).bits(), bits & 0xf0);
    }
}

#[test]
fn new_registers_are_clear() {
    let regs = Registers::new();
    assert_eq!(regs.pc, 0);
    assert_eq!(regs.sp, 0);
    assert_eq!(regs.read16(Reg16::AF), 0);
    assert_eq!(regs.read16(Reg16::BC), 0);
    assert_eq!(regs.read16(Reg16::DE), 0);
    assert_eq!(regs.read16(Reg16::HL), 0);
}
