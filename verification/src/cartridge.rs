//! The cartridge image: a raw ROM blob whose header names the mapper, the
//! ROM size and the size of the external RAM.

use vstd::prelude::*;
use vstd::arithmetic::power2::{pow2, lemma2_to64};

verus! {

/// Offset of the zero-terminated title.
pub const TITLE_OFFSET: usize = 0x134;

/// Offset of the cartridge type byte.
pub const TYPE_OFFSET: usize = 0x147;

/// Offset of the ROM size code.
pub const ROM_SIZE_OFFSET: usize = 0x148;

/// Offset of the RAM size code.
pub const RAM_SIZE_OFFSET: usize = 0x149;

/// Offset of the destination code.
pub const LANGUAGE_OFFSET: usize = 0x14a;

/// First offset behind the header.
pub const HEADER_END: usize = 0x150;

#[derive(Clone, Copy, Debug, PartialEq, Eq, Structural)]
pub enum CartridgeMapper {
    NONE,
    MBC1,
    MBC2,
    MMM01,
    MBC3,
    MBC4,
    MBC5,
    POCKETCAMERA,
    TAMA5,
    HUC3,
    HUC1,
    INVALID,
}

#[derive(Clone, Copy, Debug, PartialEq, Eq, Structural)]
pub struct CartridgeType {
    pub mapper: CartridgeMapper,
    pub ram: bool,
    pub battery: bool,
    pub timer: bool,
    pub rumble: bool,
}

impl CartridgeType {
    pub fn new(mapper: CartridgeMapper, ram: bool, battery: bool, timer: bool, rumble: bool) -> (r:
        CartridgeType)
        ensures
            r == (CartridgeType { mapper, ram, battery, timer, rumble }),
    {
        CartridgeType { mapper, ram, battery, timer, rumble }
    }

    pub fn get_mapper(&self) -> (r: CartridgeMapper)
        ensures
            r == self.mapper,
    {
        self.mapper
    }
}

#[derive(Clone, Copy, Debug, PartialEq, Eq, Structural)]
pub enum CartridgeLanguage {
    JAPANESE,
    ENGLISH,
    INVALID,
}

/// Why an image is not a cartridge.
#[derive(Clone, Copy, Debug, PartialEq, Eq, Structural)]
pub enum CartridgeError {
    /// The image ends before its header does.
    TooShort,
    /// The ROM size code is none of 0x00..=0x08.
    InvalidRomSize,
    /// The RAM size code is none of 0x00..=0x05.
    InvalidRamSize,
    /// The image is not as long as its ROM size code says.
    SizeMismatch,
}

/// Bytes of ROM that a size code stands for: 32 KiB doubled `code` times.
pub open spec fn rom_size_of(code: u8) -> Option<nat> {
    if code <= 8 {
        Some(0x8000 * pow2(code as nat))
    } else {
        None
    }
}

/// 16 KiB banks of ROM that a size code stands for.
pub open spec fn rom_banks_of(code: u8) -> Option<nat> {
    if code <= 8 {
        Some(2 * pow2(code as nat))
    } else {
        None
    }
}

/// 8 KiB banks of external RAM that a size code stands for. The 2 KiB
/// cartridge counts as one bank.
pub open spec fn ram_banks_of(code: u8) -> Option<nat> {
    if code == 0 {
        Some(0nat)
    } else if code == 1 || code == 2 {
        Some(1nat)
    } else if code == 3 {
        Some(4nat)
    } else if code == 4 {
        Some(16nat)
    } else if code == 5 {
        Some(8nat)
    } else {
        None
    }
}

/// Bytes of external RAM that a size code stands for.
pub open spec fn ram_size_of(code: u8) -> Option<nat> {
    if code == 1 {
        Some(0x800nat)
    } else {
        match ram_banks_of(code) {
            Some(banks) => Some(banks * 0x2000),
            None => None,
        }
    }
}

/// The mapper that a type byte selects.
pub open spec fn mapper_of(code: u8) -> CartridgeMapper {
    if code == 0x00 {
        CartridgeMapper::NONE
    } else if 0x01 <= code <= 0x03 {
        CartridgeMapper::MBC1
    } else if code == 0x13 {
        CartridgeMapper::MBC3
    } else {
        CartridgeMapper::INVALID
    }
}

/// Number of title bytes in front of the first zero byte among
/// `rom[from..HEADER_END]`.
pub open spec fn title_len(rom: Seq<u8>, from: int) -> nat
    decreases HEADER_END - from,
{
    if from >= HEADER_END || from < 0 || from >= rom.len() || rom[from] == 0 {
        0
    } else {
        1 + title_len(rom, from + 1)
    }
}

/// A ROM is between 32 KiB and 8 MiB long and is made of whole 16 KiB banks.
pub proof fn lemma_rom_geometry(code: u8)
    requires
        code <= 8,
    ensures
        rom_size_of(code)->Some_0 == rom_banks_of(code)->Some_0 * 0x4000,
        0x8000 <= rom_size_of(code)->Some_0 <= 0x800000,
        rom_size_of(code)->Some_0 % 0x8000 == 0,
{
    lemma2_to64();
    if code == 0 {
    } else if code == 1 {
    } else if code == 2 {
    } else if code == 3 {
    } else if code == 4 {
    } else if code == 5 {
    } else if code == 6 {
    } else if code == 7 {
    } else {
    }
}

/// The verdict on a raw image: `None` where it is a well-formed cartridge.
pub open spec fn image_error(rom: Seq<u8>) -> Option<CartridgeError> {
    if rom.len() < HEADER_END {
        Some(CartridgeError::TooShort)
    } else if rom_size_of(rom[ROM_SIZE_OFFSET as int]) is None {
        Some(CartridgeError::InvalidRomSize)
    } else if ram_size_of(rom[RAM_SIZE_OFFSET as int]) is None {
        Some(CartridgeError::InvalidRamSize)
    } else if rom_size_of(rom[ROM_SIZE_OFFSET as int]) != Some(rom.len()) {
        Some(CartridgeError::SizeMismatch)
    } else {
        None
    }
}

/// A cartridge as data: the ROM image and the contents of the external RAM.
pub struct CartridgeView {
    pub rom: Seq<u8>,
    pub ram: Seq<u8>,
}

impl CartridgeView {
    /// The image is a well-formed cartridge and the RAM has the size that the
    /// header declares.
    pub open spec fn wf(self) -> bool {
        &&& image_error(self.rom) is None
        &&& ram_size_of(self.rom[RAM_SIZE_OFFSET as int]) == Some(self.ram.len())
    }

    /// The cartridge that a well-formed image makes: the external RAM has
    /// the size that the header declares and starts out zeroed.
    pub open spec fn init(rom: Seq<u8>) -> CartridgeView {
        CartridgeView {
            rom,
            ram: Seq::new(ram_size_of(rom[RAM_SIZE_OFFSET as int])->Some_0, |i: int| 0u8),
        }
    }

    pub open spec fn rom_code(self) -> u8 {
        self.rom[ROM_SIZE_OFFSET as int]
    }

    pub open spec fn ram_code(self) -> u8 {
        self.rom[RAM_SIZE_OFFSET as int]
    }

    /// A read of the external RAM; outside of it the bus floats high.
    pub open spec fn read_ram(self, address: int) -> u8 {
        if 0 <= address < self.ram.len() {
            self.ram[address]
        } else {
            0xff
        }
    }

    /// A write to the external RAM; outside of it nothing happens.
    pub open spec fn write_ram(self, address: int, value: u8) -> CartridgeView {
        if 0 <= address < self.ram.len() {
            CartridgeView { ram: self.ram.update(address, value), ..self }
        } else {
            self
        }
    }

    /// The title: the header bytes from `TITLE_OFFSET` up to the first zero
    /// byte, each as a character.
    pub open spec fn title(self) -> Seq<char> {
        Seq::new(
            title_len(self.rom, TITLE_OFFSET as int),
            |i: int| self.rom[TITLE_OFFSET + i] as char,
        )
    }

    pub open spec fn language(self) -> CartridgeLanguage {
        if self.rom[LANGUAGE_OFFSET as int] == 0 {
            CartridgeLanguage::JAPANESE
        } else if self.rom[LANGUAGE_OFFSET as int] == 1 {
            CartridgeLanguage::ENGLISH
        } else {
            CartridgeLanguage::INVALID
        }
    }

    pub open spec fn cartridge_type(self) -> CartridgeType {
        CartridgeType {
            mapper: mapper_of(self.rom[TYPE_OFFSET as int]),
            ram: false,
            battery: false,
            timer: false,
            rumble: false,
        }
    }
}

pub struct Cartridge {
    rom: Vec<u8>,
    ram: Vec<u8>,
}

impl View for Cartridge {
    type V = CartridgeView;

    closed spec fn view(&self) -> CartridgeView {
        CartridgeView { rom: self.rom@, ram: self.ram@ }
    }
}

/// `String::push` of the standard library appends the character to the end
/// of the string.
#[verifier::external_body]
fn push_char(s: &mut String, c: char)
    ensures
        final(s)@ == old(s)@.push(c),
{
    s.push(c);
}

fn decode_rom_size(code: u8) -> (r: Option<usize>)
    ensures
        r is Some <==> rom_size_of(code) is Some,
        r is Some ==> r->Some_0 == rom_size_of(code)->Some_0,
{
    proof {
        lemma2_to64();
    }
    match code {
        0x00 => Some(0x8000),
        0x01 => Some(0x10000),
        0x02 => Some(0x20000),
        0x03 => Some(0x40000),
        0x04 => Some(0x80000),
        0x05 => Some(0x100000),
        0x06 => Some(0x200000),
        0x07 => Some(0x400000),
        0x08 => Some(0x800000),
        _ => None,
    }
}

fn decode_rom_banks(code: u8) -> (r: Option<usize>)
    ensures
        r is Some <==> rom_banks_of(code) is Some,
        r is Some ==> r->Some_0 == rom_banks_of(code)->Some_0,
{
    proof {
        lemma2_to64();
    }
    match code {
        0x00 => Some(2),
        0x01 => Some(4),
        0x02 => Some(8),
        0x03 => Some(16),
        0x04 => Some(32),
        0x05 => Some(64),
        0x06 => Some(128),
        0x07 => Some(256),
        0x08 => Some(512),
        _ => None,
    }
}

fn decode_ram_size(code: u8) -> (r: Option<usize>)
    ensures
        r is Some <==> ram_size_of(code) is Some,
        r is Some ==> r->Some_0 == ram_size_of(code)->Some_0,
{
    match code {
        0x00 => Some(0),
        0x01 => Some(0x800),
        0x02 => Some(0x2000),
        0x03 => Some(0x8000),
        0x04 => Some(0x20000),
        0x05 => Some(0x10000),
        _ => None,
    }
}

fn decode_ram_banks(code: u8) -> (r: Option<usize>)
    ensures
        r is Some <==> ram_banks_of(code) is Some,
        r is Some ==> r->Some_0 == ram_banks_of(code)->Some_0,
{
    match code {
        0x00 => Some(0),
        0x01 => Some(1),
        0x02 => Some(1),
        0x03 => Some(4),
        0x04 => Some(16),
        0x05 => Some(8),
        _ => None,
    }
}

impl Cartridge {
    /// Takes a raw image. It is accepted exactly when it holds a whole
    /// header, both size codes are known and the image is as long as its ROM
    /// size code says; the external RAM starts out zeroed.
    pub fn new(rom: Vec<u8>) -> (r: Result<Cartridge, CartridgeError>)
        ensures
            match r {
                Ok(c) => image_error(rom@) is None && c@.wf() && c@ == CartridgeView::init(rom@),
                Err(e) => image_error(rom@) == Some(e),
            },
    {
        if rom.len() < HEADER_END {
            return Err(CartridgeError::TooShort);
        }
        let rom_size = match decode_rom_size(rom[ROM_SIZE_OFFSET]) {
            Some(size) => size,
            None => {
                return Err(CartridgeError::InvalidRomSize);
            },
        };
        let ram_size = match decode_ram_size(rom[RAM_SIZE_OFFSET]) {
            Some(size) => size,
            None => {
                return Err(CartridgeError::InvalidRamSize);
            },
        };
        if rom.len() != rom_size {
            return Err(CartridgeError::SizeMismatch);
        }
        let ram = vec![0u8; ram_size];
        let c = Cartridge { rom, ram };
        assert(c@.ram =~= CartridgeView::init(rom@).ram);
        Ok(c)
    }

    pub fn read_rom(&self, address: usize) -> (r: u8)
        requires
            self@.wf(),
            address < self@.rom.len(),
        ensures
            r == self@.rom[address as int],
    {
        self.rom[address]
    }

    pub fn read_ram(&self, address: usize) -> (r: u8)
        ensures
            r == self@.read_ram(address as int),
    {
        if address < self.ram.len() {
            self.ram[address]
        } else {
            0xff
        }
    }

    /// The ROM cannot be written.
    pub fn write_rom(&mut self, address: usize, value: u8)
        ensures
            final(self)@ == old(self)@,
    {
    }

    pub fn write_ram(&mut self, address: usize, value: u8)
        ensures
            final(self)@ == old(self)@.write_ram(address as int, value),
            old(self)@.wf() ==> final(self)@.wf(),
    {
        if address < self.ram.len() {
            self.ram[address] = value;
        }
    }

    pub fn get_title(&self) -> (r: String)
        requires
            self@.wf(),
        ensures
            r@ == self@.title(),
    {
        let mut title = String::new();
        let mut i: usize = TITLE_OFFSET;
        while i < HEADER_END && self.rom[i] != 0
            invariant
                TITLE_OFFSET <= i <= HEADER_END <= self.rom@.len(),
                title@.len() == i - TITLE_OFFSET,
                forall|k: int|
                    0 <= k < title@.len() ==> title@[k] == self.rom@[TITLE_OFFSET + k] as char,
                title_len(self.rom@, TITLE_OFFSET as int) == (i - TITLE_OFFSET) + title_len(
                    self.rom@,
                    i as int,
                ),
            decreases HEADER_END - i,
        {
            push_char(&mut title, self.rom[i] as char);
            i += 1;
        }
        assert(title@ =~= self@.title());
        title
    }

    pub fn get_filesize(&self) -> (r: usize)
        ensures
            r == self@.rom.len(),
    {
        self.rom.len()
    }

    pub fn get_rom_size(&self) -> (r: Result<usize, &'static str>)
        requires
            self@.wf(),
        ensures
            r is Ok,
            r->Ok_0 == self@.rom.len(),
            Some(self@.rom.len()) == rom_size_of(self@.rom_code()),
    {
        match decode_rom_size(self.rom[ROM_SIZE_OFFSET]) {
            Some(size) => Ok(size),
            None => Err("ERROR: invalid cartridge ROM size"),
        }
    }

    pub fn get_rom_banks(&self) -> (r: Result<usize, &'static str>)
        requires
            self@.wf(),
        ensures
            r is Ok,
            Some(r->Ok_0 as nat) == rom_banks_of(self@.rom_code()),
            r->Ok_0 * 0x4000 == self@.rom.len(),
    {
        proof {
            lemma_rom_geometry(self@.rom_code());
        }
        match decode_rom_banks(self.rom[ROM_SIZE_OFFSET]) {
            Some(banks) => Ok(banks),
            None => Err("ERROR: invalid cartridge ROM size"),
        }
    }

    pub fn get_ram_size(&self) -> (r: Result<usize, &'static str>)
        requires
            self@.wf(),
        ensures
            r is Ok,
            r->Ok_0 == self@.ram.len(),
            Some(self@.ram.len()) == ram_size_of(self@.ram_code()),
    {
        match decode_ram_size(self.rom[RAM_SIZE_OFFSET]) {
            Some(size) => Ok(size),
            None => Err("ERROR: invalid cartridge RAM size"),
        }
    }

    pub fn get_ram_banks(&self) -> (r: Result<usize, &'static str>)
        requires
            self@.wf(),
        ensures
            r is Ok,
            Some(r->Ok_0 as nat) == ram_banks_of(self@.ram_code()),
    {
        match decode_ram_banks(self.rom[RAM_SIZE_OFFSET]) {
            Some(banks) => Ok(banks),
            None => Err("ERROR: invalid cartridge RAM size"),
        }
    }

    pub fn has_ram(&self) -> (r: bool)
        requires
            self@.wf(),
        ensures
            r == (self@.ram.len() > 0),
    {
        self.ram.len() > 0
    }

    pub fn get_language(&self) -> (r: CartridgeLanguage)
        requires
            self@.wf(),
        ensures
            r == self@.language(),
    {
        match self.rom[LANGUAGE_OFFSET] {
            0x00 => CartridgeLanguage::JAPANESE,
            0x01 => CartridgeLanguage::ENGLISH,
            _ => CartridgeLanguage::INVALID,
        }
    }

    pub fn get_type(&self) -> (r: CartridgeType)
        requires
            self@.wf(),
        ensures
            r == self@.cartridge_type(),
    {
        match self.rom[TYPE_OFFSET] {
            0x00 => CartridgeType::new(CartridgeMapper::NONE, false, false, false, false),
            0x01..=0x03 => CartridgeType::new(CartridgeMapper::MBC1, false, false, false, false),
            0x13 => CartridgeType::new(CartridgeMapper::MBC3, false, false, false, false),
            _ => CartridgeType::new(CartridgeMapper::INVALID, false, false, false, false),
        }
    }
}

} // verus!
