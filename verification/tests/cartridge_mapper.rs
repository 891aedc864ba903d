use gameboy::cartridge::{Cartridge, CartridgeError, CartridgeLanguage, CartridgeMapper, CartridgeType};
use gameboy::mapper::{Mapper, MapperMBC1, MapperMBC3, MapperNone};
use gameboy::{Gameboy, GameboyError};

fn image(kind: u8, rom_code: u8, ram_code: u8) -> Vec<u8> {
    let mut rom = vec![0u8; 0x8000 << rom_code];
    for (bank, chunk) in rom.chunks_mut(0x4000).enumerate() {
        chunk[0] = bank as u8;
        chunk[0x3fff] = 0x80 | bank as u8;
    }
    rom[0x134..0x139].copy_from_slice(b"TEST\0");
    rom[0x147] = kind;
    rom[0x148] = rom_code;
    rom[0x149] = ram_code;
    rom[0x14a] = 0x01;
    rom
}

#[test]
fn a_well_formed_image_is_accepted() {
    let cartridge = Cartridge::new(image(0x01, 0x02, 0x03)).unwrap();
    assert_eq!(cartridge.get_filesize(), 0x20000);
    assert_eq!(cartridge.get_title(), "TEST");
    assert_eq!(cartridge.get_rom_size(), Ok(0x20000));
    assert_eq!(cartridge.get_rom_banks(), Ok(8));
    assert_eq!(cartridge.get_ram_size(), Ok(0x8000));
    assert_eq!(cartridge.get_ram_banks(), Ok(4));
    assert!(cartridge.has_ram());
    assert_eq!(cartridge.get_language(), CartridgeLanguage::ENGLISH);
    assert_eq!(cartridge.get_type().get_mapper(), CartridgeMapper::MBC1);
    assert_eq!(cartridge.read_rom(0x4000), 1);
    assert_eq!(cartridge.read_rom(0x1ffff), 0x87);
}

#[test]
fn size_codes_stand_for_their_sizes() {
    for (code, size, banks) in [(0u8, 0x8000usize, 2usize), (1, 0x10000, 4), (2, 0x20000, 8), (3, 0x40000, 16), (4, 0x80000, 32), (5, 0x100000, 64), (6, 0x200000, 128), (7, 0x400000, 256), (8, 0x800000, 512)] {
        let cartridge = Cartridge::new(image(0x00, code, 0x00)).unwrap();
        assert_eq!(cartridge.get_rom_size(), Ok(size));
        assert_eq!(cartridge.get_rom_banks(), Ok(banks));
        assert!(!cartridge.has_ram());
    }
    for (code, size, banks) in [(0u8, 0usize, 0usize), (1, 0x800, 1), (2, 0x2000, 1), (3, 0x8000, 4), (4, 0x20000, 16), (5, 0x10000, 8)] {
        let cartridge = Cartridge::new(image(0x00, 0, code)).unwrap();
        assert_eq!(cartridge.get_ram_size(), Ok(size));
        assert_eq!(cartridge.get_ram_banks(), Ok(banks));
        assert_eq!(cartridge.has_ram(), size > 0);
        assert_eq!(cartridge.read_ram(size), 0xff);
        if size > 0 {
            assert_eq!(cartridge.read_ram(size - 1), 0x00);
        }
    }
}

#[test]
fn a_malformed_image_is_rejected_with_its_reason() {
    assert_eq!(Cartridge::new(vec![0u8; 0x14f]).err(), Some(CartridgeError::TooShort));
    assert_eq!(Cartridge::new(Vec::new()).err(), Some(CartridgeError::TooShort));
    let mut rom = image(0, 0, 0);
    rom[0x148] = 0x09;
    assert_eq!(Cartridge::new(rom).err(), Some(CartridgeError::InvalidRomSize));
    let mut rom = image(0, 0, 0);
    rom[0x149] = 0x06;
    assert_eq!(Cartridge::new(rom).err(), Some(CartridgeError::InvalidRamSize));
    let mut rom = image(0, 0, 0);
    rom[0x148] = 0x01;
    assert_eq!(Cartridge::new(rom).err(), Some(CartridgeError::SizeMismatch));
    let mut rom = image(0, 0, 0);
    rom.push(0);
    assert_eq!(Cartridge::new(rom).err(), Some(CartridgeError::SizeMismatch));
    let mut rom = vec![0u8; 0x150];
    rom[0x148] = 0x09;
    rom[0x149] = 0x09;
    assert_eq!(Cartridge::new(rom).err(), Some(CartridgeError::InvalidRomSize));
}

#[test]
fn the_title_ends_at_its_first_zero_byte_or_with_the_header() {
    let mut rom = image(0, 0, 0);
    rom[0x134..0x144].copy_from_slice(b"SIXTEEN LETTERS!");
    rom[0x144] = 0;
    assert_eq!(Cartridge::new(rom).unwrap().get_title(), "SIXTEEN LETTERS!");
    let mut rom = image(0, 0, 0);
    rom[0x134] = 0;
    assert_eq!(Cartridge::new(rom).unwrap().get_title(), "");
    let mut rom = image(0x01, 0x01, 0x01);
    for byte in rom[0x134..0x150].iter_mut() {
        *byte = if *byte == 0 { b'A' } else { *byte };
    }
    let title = Cartridge::new(rom).unwrap().get_title();
    assert_eq!(title.len(), 0x150 - 0x134);
    assert!(title.starts_with("TESTA"));
}

#[test]
fn type_and_language_bytes_are_decoded() {
    for (code, mapper) in [(0x00u8, CartridgeMapper::NONE), (0x01, CartridgeMapper::MBC1), (0x02, CartridgeMapper::MBC1), (0x03, CartridgeMapper::MBC1), (0x13, CartridgeMapper::MBC3), (0x04, CartridgeMapper::INVALID), (0xff, CartridgeMapper::INVALID)] {
        let cartridge = Cartridge::new(image(code, 0, 0)).unwrap();
        assert_eq!(cartridge.get_type(), CartridgeType::new(mapper, false, false, false, false));
    }
    for (code, language) in [(0u8, CartridgeLanguage::JAPANESE), (1, CartridgeLanguage::ENGLISH), (2, CartridgeLanguage::INVALID)] {
        let mut rom = image(0, 0, 0);
        rom[0x14a] = code;
        assert_eq!(Cartridge::new(rom).unwrap().get_language(), language);
    }
}

#[test]
fn cartridge_ram_holds_bytes_inside_its_bounds() {
    let mut cartridge = Cartridge::new(image(0x03, 0, 0x02)).unwrap();
    cartridge.write_ram(0x1fff, 0x5a);
    cartridge.write_ram(0x2000, 0x77);
    cartridge.write_rom(0x0000, 0x99);
    assert_eq!(cartridge.read_ram(0x1fff), 0x5a);
    assert_eq!(cartridge.read_ram(0x2000), 0xff);
    assert_eq!(cartridge.read_rom(0x0000), 0x00);
}

#[test]
fn a_cartridge_without_mapper_is_read_as_it_is() {
    let mut mapper = MapperNone::new(Cartridge::new(image(0x00, 0, 0x02)).unwrap());
    assert_eq!(mapper.read_rom(0x0000), 0);
    assert_eq!(mapper.read_rom(0x3fff), 0x80);
    assert_eq!(mapper.read_rom(0x4000), 1);
    assert_eq!(mapper.read_rom(0x7fff), 0x81);
    mapper.write_rom(0x2000, 0x05);
    assert_eq!(mapper.read_rom(0x4000), 1);
    mapper.write_ram(0x0123, 0x45);
    assert_eq!(mapper.read_ram(0x0123), 0x45);
    mapper.write_ram(0xa000, 0x45);
    assert_eq!(mapper.read_ram(0xa000), 0xff);
    assert_eq!(mapper.cartridge().get_title(), "TEST");
}

#[test]
fn the_rom_bank_register_selects_the_upper_window() {
    let mut mapper = MapperMBC1::new(Cartridge::new(image(0x01, 0x03, 0x00)).unwrap());
    assert_eq!(mapper.read_rom(0x0000), 0);
    assert_eq!(mapper.read_rom(0x4000), 1);
    assert_eq!(mapper.read_rom(0x7fff), 0x81);
    for bank in 1..16u8 {
        mapper.write_rom(0x2000, bank);
        assert_eq!(mapper.rom_bank_upper(), bank);
        assert_eq!(mapper.read_rom(0x4000), bank);
        assert_eq!(mapper.read_rom(0x7fff), 0x80 | bank);
        assert_eq!(mapper.read_rom(0x0000), 0);
    }
    mapper.write_rom(0x3fff, 0x00);
    assert_eq!(mapper.read_rom(0x4000), 1);
    mapper.write_rom(0x2000, 0xe5);
    assert_eq!(mapper.read_rom(0x4000), 5);
    mapper.write_rom(0x2000, 0x20);
    assert_eq!(mapper.read_rom(0x4000), 1);
    mapper.write_rom(0x2000, 0x13);
    assert_eq!(mapper.read_rom(0x4000), 3);
}

#[test]
fn the_secondary_register_extends_the_rom_bank_or_selects_the_ram_bank() {
    let mut mapper = MapperMBC1::new(Cartridge::new(image(0x03, 0x06, 0x03)).unwrap());
    mapper.write_rom(0x2000, 0x02);
    mapper.write_rom(0x4000, 0x01);
    assert_eq!(mapper.rom_bank_upper(), 0x22);
    assert_eq!(mapper.rom_bank_lower(), 0x20);
    assert_eq!(mapper.ram_bank(), 0);
    assert_eq!(mapper.read_rom(0x4000), 0x22);
    assert_eq!(mapper.read_rom(0x0000), 0x20);
    mapper.write_rom(0x6000, 0x01);
    assert_eq!(mapper.rom_bank_upper(), 0x02);
    assert_eq!(mapper.rom_bank_lower(), 0x00);
    assert_eq!(mapper.ram_bank(), 1);
    assert_eq!(mapper.read_rom(0x4000), 0x02);
    assert_eq!(mapper.read_rom(0x0000), 0x00);
    mapper.write_rom(0x4000, 0xff);
    assert_eq!(mapper.ram_bank(), 3);
    mapper.write_rom(0x6000, 0xfe);
    assert_eq!(mapper.ram_bank(), 0);
    assert_eq!(mapper.rom_bank_upper(), 0x62);
}

#[test]
fn external_ram_answers_only_while_it_is_enabled() {
    let mut mapper = MapperMBC1::new(Cartridge::new(image(0x03, 0x00, 0x03)).unwrap());
    mapper.write_ram(0xa000, 0x11);
    assert_eq!(mapper.read_ram(0xa000), 0xff);
    mapper.write_rom(0x0000, 0x0a);
    assert_eq!(mapper.read_ram(0xa000), 0x00);
    mapper.write_ram(0xa000, 0x11);
    mapper.write_ram(0xbfff, 0x22);
    assert_eq!(mapper.read_ram(0xa000), 0x11);
    assert_eq!(mapper.read_ram(0xbfff), 0x22);
    mapper.write_rom(0x6000, 0x01);
    mapper.write_rom(0x4000, 0x02);
    assert_eq!(mapper.read_ram(0xa000), 0x00);
    mapper.write_ram(0xa000, 0x33);
    assert_eq!(mapper.read_ram(0xa000), 0x33);
    mapper.write_rom(0x4000, 0x00);
    assert_eq!(mapper.read_ram(0xa000), 0x11);
    mapper.write_rom(0x1fff, 0x00);
    assert_eq!(mapper.read_ram(0xa000), 0xff);
    for (value, open) in [(0x1au8, true), (0xfa, true), (0x0b, false), (0x0e, false), (0xa0, false), (0x0a, true)] {
        mapper.write_rom(0x0000, value);
        assert_eq!(mapper.read_ram(0xa000) == 0x11, open, "value {:#x}", value);
    }
}

#[test]
fn small_and_absent_external_ram() {
    let mut small = MapperMBC1::new(Cartridge::new(image(0x03, 0x00, 0x01)).unwrap());
    small.write_rom(0x0000, 0x0a);
    small.write_ram(0xa000, 0x44);
    assert_eq!(small.read_ram(0xa800), 0x44);
    assert_eq!(small.read_ram(0xb000), 0x44);
    let mut absent = MapperMBC1::new(Cartridge::new(image(0x01, 0x00, 0x00)).unwrap());
    absent.write_rom(0x0000, 0x0a);
    absent.write_ram(0xa000, 0x44);
    assert_eq!(absent.read_ram(0xa000), 0xff);
}

#[test]
fn the_second_banked_mapper_behaves_like_the_first() {
    let mut mapper = MapperMBC3::new(Cartridge::new(image(0x13, 0x03, 0x03)).unwrap());
    assert_eq!(mapper.read_rom(0x4000), 1);
    mapper.write_rom(0x2000, 0x07);
    assert_eq!(mapper.rom_bank_upper(), 7);
    assert_eq!(mapper.rom_bank_lower(), 0);
    assert_eq!(mapper.ram_bank(), 0);
    assert_eq!(mapper.read_rom(0x4000), 7);
    mapper.write_rom(0x0000, 0x0a);
    mapper.write_ram(0xa010, 0x66);
    assert_eq!(mapper.read_ram(0xa010), 0x66);
}

#[test]
fn the_mapper_is_chosen_from_the_type_byte() {
    for kind in [0x00u8, 0x01, 0x02, 0x03, 0x13] {
        let cartridge = Cartridge::new(image(kind, 0x01, 0x02)).unwrap();
        assert!(Mapper::supports(&cartridge));
        let mut mapper = Mapper::new(cartridge);
        mapper.write_rom(0x2000, 0x03);
        mapper.write_rom(0x0000, 0x0a);
        mapper.write_ram(0xa000, 0x12);
        assert_eq!(mapper.read_rom(0x4000), if kind == 0 { 1 } else { 3 });
        assert_eq!(mapper.read_ram(0xa000), if kind == 0 { 0xff } else { 0x12 });
        assert_eq!(mapper.cartridge().get_rom_banks(), Ok(4));
    }
    let cartridge = Cartridge::new(image(0x05, 0x00, 0x00)).unwrap();
    assert!(!Mapper::supports(&cartridge));
}

#[test]
fn a_console_is_built_only_from_parts_that_fit() {
    assert!(Gameboy::new(image(0x00, 0, 0), vec![0u8; 0x100]).is_ok());
    assert_eq!(Gameboy::new(image(0x00, 0, 0), vec![0u8; 0xff]).err(), Some(GameboyError::BootromSize));
    assert_eq!(Gameboy::new(image(0x00, 0, 0), vec![0u8; 0x101]).err(), Some(GameboyError::BootromSize));
    assert_eq!(Gameboy::new(vec![0u8; 0x10], vec![0u8; 0x100]).err(), Some(GameboyError::Cartridge(CartridgeError::TooShort)));
    assert_eq!(Gameboy::new(image(0x05, 0, 0), vec![0u8; 0x100]).err(), Some(GameboyError::UnsupportedMapper));
    let mut rom = image(0x00, 0, 0);
    rom[0x149] = 0x07;
    assert_eq!(Gameboy::new(rom, vec![0u8; 0x100]).err(), Some(GameboyError::Cartridge(CartridgeError::InvalidRamSize)));
}
