//! Cartridge mappers: where a bus address lands in the ROM image
//! and the external RAM, with the bank registers that steer it.

use vstd::prelude::*;
use crate::cartridge::{Cartridge, CartridgeMapper, CartridgeView, lemma_rom_geometry};

verus! {

/// What the 2-bit secondary register of a banked mapper extends.
#[derive(Clone, Copy, Debug, PartialEq, Eq, Structural)]
pub enum MBC1BankingMode {
    ROM,
    RAM,
}

/// A cartridge without a mapper: 32 KiB of ROM seen as they are.
pub struct MapperNoneView {
    pub cartridge: CartridgeView,
}

impl MapperNoneView {
    pub open spec fn wf(self) -> bool {
        self.cartridge.wf()
    }

    pub open spec fn read_rom(self, address: u16) -> u8 {
        self.cartridge.rom[address as int]
    }

    pub open spec fn read_ram(self, address: u16) -> u8 {
        self.cartridge.read_ram(address as int)
    }

    pub open spec fn write_ram(self, address: u16, value: u8) -> MapperNoneView {
        MapperNoneView { cartridge: self.cartridge.write_ram(address as int, value) }
    }
}

/// The registers of a bank-switching mapper together with its cartridge.
pub struct BankingView {
    pub cartridge: CartridgeView,
    pub ram_enable: bool,
    /// The 5-bit ROM bank number; never zero.
    pub rom_bank: u8,
    /// The 2-bit secondary register.
    pub ram_bank: u8,
    pub banking_mode: MBC1BankingMode,
}

impl BankingView {
    pub open spec fn wf(self) -> bool {
        &&& self.cartridge.wf()
        &&& 1 <= self.rom_bank <= 0x1f
        &&& self.ram_bank <= 3
    }

    /// The state behind a fresh cartridge: RAM closed, ROM bank 1.
    pub open spec fn init(cartridge: CartridgeView) -> BankingView {
        BankingView {
            cartridge,
            ram_enable: false,
            rom_bank: 1,
            ram_bank: 0,
            banking_mode: MBC1BankingMode::ROM,
        }
    }

    /// The bank seen at 0x0000..0x4000.
    pub open spec fn rom_bank_lower(self) -> u8 {
        if self.banking_mode == MBC1BankingMode::ROM {
            (self.ram_bank * 32) as u8
        } else {
            0
        }
    }

    /// The bank seen at 0x4000..0x8000: the ROM bank number, with the
    /// secondary register above it in ROM banking mode.
    pub open spec fn rom_bank_upper(self) -> u8 {
        if self.banking_mode == MBC1BankingMode::ROM {
            (self.ram_bank * 32 + self.rom_bank) as u8
        } else {
            self.rom_bank
        }
    }

    /// The RAM bank: the secondary register in RAM banking mode, else 0.
    pub open spec fn ram_bank(self) -> u8 {
        if self.banking_mode == MBC1BankingMode::RAM {
            self.ram_bank
        } else {
            0
        }
    }

    /// Where a ROM address lands in the image. The bank-relative index wraps
    /// at the size of the ROM, which is a power of two.
    pub open spec fn rom_index(self, address: u16) -> int {
        let bank = if address >= 0x4000 {
            self.rom_bank_upper()
        } else {
            self.rom_bank_lower()
        };
        (bank * 0x4000 + address % 0x4000) % (self.cartridge.rom.len() as int)
    }

    /// Where a RAM address lands in the external RAM, if there is any.
    pub open spec fn ram_index(self, address: u16) -> int {
        (self.ram_bank() * 0x2000 + address % 0x2000) % (self.cartridge.ram.len() as int)
    }

    pub open spec fn read_rom(self, address: u16) -> u8 {
        self.cartridge.rom[self.rom_index(address)]
    }

    /// A closed or absent RAM reads as 0xff.
    pub open spec fn read_ram(self, address: u16) -> u8 {
        if self.ram_enable && self.cartridge.ram.len() > 0 {
            self.cartridge.ram[self.ram_index(address)]
        } else {
            0xff
        }
    }

    /// A write into the ROM area sets a register: the RAM gate at
    /// 0x0000..0x2000 (open when the low nibble is 0xA), the ROM bank at
    /// 0x2000..0x4000 (five bits, zero stored as one), the secondary register
    /// at 0x4000..0x6000 (two bits) and the banking mode above.
    pub open spec fn write_rom(self, address: u16, value: u8) -> BankingView {
        if address < 0x2000 {
            BankingView { ram_enable: value % 16 == 0x0a, ..self }
        } else if address < 0x4000 {
            BankingView { rom_bank: if value % 32 == 0 { 1 } else { value % 32 }, ..self }
        } else if address < 0x6000 {
            BankingView { ram_bank: value % 4, ..self }
        } else {
            BankingView {
                banking_mode: if value % 2 != 0 {
                    MBC1BankingMode::RAM
                } else {
                    MBC1BankingMode::ROM
                },
                ..self
            }
        }
    }

    /// A write to a closed or absent RAM is dropped.
    pub open spec fn write_ram(self, address: u16, value: u8) -> BankingView {
        if self.ram_enable && self.cartridge.ram.len() > 0 {
            BankingView {
                cartridge: CartridgeView {
                    ram: self.cartridge.ram.update(self.ram_index(address), value),
                    ..self.cartridge
                },
                ..self
            }
        } else {
            self
        }
    }
}

/// A mapper as data, one case per supported kind.
pub enum MapperView {
    Unbanked(MapperNoneView),
    MBC1(BankingView),
    MBC3(BankingView),
}

impl MapperView {
    pub open spec fn wf(self) -> bool {
        match self {
            MapperView::Unbanked(m) => m.wf(),
            MapperView::MBC1(m) => m.wf(),
            MapperView::MBC3(m) => m.wf(),
        }
    }

    pub open spec fn cartridge(self) -> CartridgeView {
        match self {
            MapperView::Unbanked(m) => m.cartridge,
            MapperView::MBC1(m) => m.cartridge,
            MapperView::MBC3(m) => m.cartridge,
        }
    }

    /// The mapper that a cartridge asks for, in its state after power-on.
    pub open spec fn init(cartridge: CartridgeView) -> MapperView {
        match cartridge.cartridge_type().mapper {
            CartridgeMapper::MBC1 => MapperView::MBC1(BankingView::init(cartridge)),
            CartridgeMapper::MBC3 => MapperView::MBC3(BankingView::init(cartridge)),
            _ => MapperView::Unbanked(MapperNoneView { cartridge }),
        }
    }

    pub open spec fn read_rom(self, address: u16) -> u8 {
        match self {
            MapperView::Unbanked(m) => m.read_rom(address),
            MapperView::MBC1(m) => m.read_rom(address),
            MapperView::MBC3(m) => m.read_rom(address),
        }
    }

    pub open spec fn read_ram(self, address: u16) -> u8 {
        match self {
            MapperView::Unbanked(m) => m.read_ram(address),
            MapperView::MBC1(m) => m.read_ram(address),
            MapperView::MBC3(m) => m.read_ram(address),
        }
    }

    pub open spec fn write_rom(self, address: u16, value: u8) -> MapperView {
        match self {
            MapperView::Unbanked(m) => self,
            MapperView::MBC1(m) => MapperView::MBC1(m.write_rom(address, value)),
            MapperView::MBC3(m) => MapperView::MBC3(m.write_rom(address, value)),
        }
    }

    pub open spec fn write_ram(self, address: u16, value: u8) -> MapperView {
        match self {
            MapperView::Unbanked(m) => MapperView::Unbanked(m.write_ram(address, value)),
            MapperView::MBC1(m) => MapperView::MBC1(m.write_ram(address, value)),
            MapperView::MBC3(m) => MapperView::MBC3(m.write_ram(address, value)),
        }
    }
}

impl MapperView {
    /// Whether the external RAM keeps a byte written to an address of
    /// 0xa000..0xc000: behind a banked mapper it has to exist and be
    /// enabled, without a mapper the address itself has to lie in it.
    pub open spec fn ram_holds_writes(self, address: u16) -> bool {
        match self {
            MapperView::Unbanked(m) => address < m.cartridge.ram.len(),
            MapperView::MBC1(m) => m.ram_enable && m.cartridge.ram.len() > 0,
            MapperView::MBC3(m) => m.ram_enable && m.cartridge.ram.len() > 0,
        }
    }

    /// A byte written to external RAM that keeps it reads back, and the
    /// bytes at the addresses next to it stay as they were.
    pub proof fn lemma_ram_write_read(m: MapperView, address: u16, value: u8)
        requires
            m.wf(),
            0xa000 <= address < 0xc000,
            m.ram_holds_writes(address),
        ensures
            m.write_ram(address, value).wf(),
            m.write_ram(address, value).read_ram(address) == value,
            forall|other: u16| #[trigger]
                m.write_ram(address, value).ram_holds_writes(other) == m.ram_holds_writes(other),
            forall|other: u16|
                0xa000 <= other < 0xc000 && (other == address + 1 || other + 1 == address)
                    ==> #[trigger] m.write_ram(address, value).read_ram(other) == m.read_ram(
                    other,
                ),
    {
        let size = m.cartridge().ram.len() as int;
        assert(size == 0 || size == 0x800 || size == 0x2000 || size == 0x8000 || size == 0x20000
            || size == 0x10000);
        assert forall|other: u16|
            0xa000 <= other < 0xc000 && (other == address + 1 || other + 1
                == address) implies #[trigger] m.write_ram(address, value).read_ram(other)
            == m.read_ram(other) by {
            let low = if other < address {
                other
            } else {
                address
            };
            match m {
                MapperView::Unbanked(_) => {},
                MapperView::MBC1(b) => {
                    lemma_neighbours_apart(b.ram_bank() as int, low as int, size);
                },
                MapperView::MBC3(b) => {
                    lemma_neighbours_apart(b.ram_bank() as int, low as int, size);
                },
            }
        }
    }
}

/// Two addresses next to each other in the RAM window never land on the
/// same byte of the external RAM, whatever its size and the bank.
pub proof fn lemma_neighbours_apart(bank: int, address: int, size: int)
    requires
        0 <= bank <= 3,
        0xa000 <= address,
        address + 1 < 0xc000,
        size == 0x800 || size == 0x2000 || size == 0x8000 || size == 0x20000 || size == 0x10000,
    ensures
        (bank * 0x2000 + address % 0x2000) % size != (bank * 0x2000 + (address + 1) % 0x2000)
            % size,
{
    if size == 0x800 {
    } else if size == 0x2000 {
    } else if size == 0x8000 {
    } else if size == 0x20000 {
    } else {
    }
}

/// Whether a mapper exists for the kind that a header names.
pub open spec fn supported(mapper: CartridgeMapper) -> bool {
    mapper == CartridgeMapper::NONE || mapper == CartridgeMapper::MBC1 || mapper
        == CartridgeMapper::MBC3
}

pub struct MapperNone {
    cartridge: Cartridge,
}

impl View for MapperNone {
    type V = MapperNoneView;

    closed spec fn view(&self) -> MapperNoneView {
        MapperNoneView { cartridge: self.cartridge@ }
    }
}

impl MapperNone {
    pub fn new(cartridge: Cartridge) -> (r: MapperNone)
        ensures
            r@ == (MapperNoneView { cartridge: cartridge@ }),
    {
        MapperNone { cartridge }
    }

    pub fn cartridge(&self) -> (r: &Cartridge)
        ensures
            r@ == self@.cartridge,
    {
        &self.cartridge
    }

    pub fn read_rom(&self, address: u16) -> (r: u8)
        requires
            self@.wf(),
            address < 0x8000,
        ensures
            r == self@.read_rom(address),
    {
        proof {
            lemma_rom_geometry(self@.cartridge.rom_code());
        }
        self.cartridge.read_rom(address as usize)
    }

    pub fn read_ram(&self, address: u16) -> (r: u8)
        ensures
            r == self@.read_ram(address),
    {
        self.cartridge.read_ram(address as usize)
    }

    pub fn write_rom(&mut self, address: u16, value: u8)
        ensures
            final(self)@ == old(self)@,
    {
        self.cartridge.write_rom(address as usize, value);
    }

    pub fn write_ram(&mut self, address: u16, value: u8)
        ensures
            final(self)@ == old(self)@.write_ram(address, value),
            old(self)@.wf() ==> final(self)@.wf(),
    {
        self.cartridge.write_ram(address as usize, value);
    }
}

pub struct MapperMBC1 {
    cartridge: Cartridge,
    ram_enable: bool,
    rom_bank: u8,
    ram_bank: u8,
    banking_mode: MBC1BankingMode,
}

impl View for MapperMBC1 {
    type V = BankingView;

    closed spec fn view(&self) -> BankingView {
        BankingView {
            cartridge: self.cartridge@,
            ram_enable: self.ram_enable,
            rom_bank: self.rom_bank,
            ram_bank: self.ram_bank,
            banking_mode: self.banking_mode,
        }
    }
}

impl MapperMBC1 {
    pub fn new(cartridge: Cartridge) -> (r: MapperMBC1)
        ensures
            r@ == BankingView::init(cartridge@),
            cartridge@.wf() ==> r@.wf(),
    {
        MapperMBC1 {
            cartridge,
            ram_enable: false,
            rom_bank: 1,
            ram_bank: 0,
            banking_mode: MBC1BankingMode::ROM,
        }
    }

    pub fn cartridge(&self) -> (r: &Cartridge)
        ensures
            r@ == self@.cartridge,
    {
        &self.cartridge
    }

    pub fn rom_bank_lower(&self) -> (r: u8)
        requires
            self@.wf(),
        ensures
            r == self@.rom_bank_lower(),
    {
        if self.banking_mode == MBC1BankingMode::ROM {
            self.ram_bank * 32
        } else {
            0
        }
    }

    pub fn rom_bank_upper(&self) -> (r: u8)
        requires
            self@.wf(),
        ensures
            r == self@.rom_bank_upper(),
    {
        let mut rom_bank = self.rom_bank;
        if self.banking_mode == MBC1BankingMode::ROM {
            rom_bank += self.ram_bank * 32;
        }
        rom_bank
    }

    pub fn ram_bank(&self) -> (r: u8)
        requires
            self@.wf(),
        ensures
            r == self@.ram_bank(),
    {
        let mut ram_bank: u8 = 0;
        if self.banking_mode == MBC1BankingMode::RAM {
            ram_bank = self.ram_bank;
        }
        ram_bank
    }

    pub fn read_rom(&self, address: u16) -> (r: u8)
        requires
            self@.wf(),
        ensures
            r == self@.read_rom(address),
    {
        let bank = if address >= 0x4000 {
            self.rom_bank_upper() as usize
        } else {
            self.rom_bank_lower() as usize
        };
        let rom_size = self.cartridge.get_filesize();
        let bank_address = bank * 0x4000 + (address as usize) % 0x4000;
        self.cartridge.read_rom(bank_address % rom_size)
    }

    pub fn read_ram(&self, address: u16) -> (r: u8)
        requires
            self@.wf(),
        ensures
            r == self@.read_ram(address),
    {
        let bank = self.ram_bank() as usize;
        let ram_size = match self.cartridge.get_ram_size() {
            Ok(size) => size,
            Err(_) => 0,
        };
        if self.ram_enable && ram_size > 0 {
            let bank_address = bank * 0x2000 + (address as usize) % 0x2000;
            self.cartridge.read_ram(bank_address % ram_size)
        } else {
            0xff
        }
    }

    pub fn write_rom(&mut self, address: u16, value: u8)
        requires
            old(self)@.wf(),
            address < 0x8000,
        ensures
            final(self)@ == old(self)@.write_rom(address, value),
            final(self)@.wf(),
    {
        if address < 0x2000 {
            self.ram_enable = value % 16 == 0x0a;
        } else if address < 0x4000 {
            self.rom_bank = value % 32;
            if self.rom_bank == 0 {
                self.rom_bank = 0x01;
            }
        } else if address < 0x6000 {
            self.ram_bank = value % 4;
        } else {
            self.banking_mode = if value % 2 != 0 {
                MBC1BankingMode::RAM
            } else {
                MBC1BankingMode::ROM
            };
        }
    }

    pub fn write_ram(&mut self, address: u16, value: u8)
        requires
            old(self)@.wf(),
        ensures
            final(self)@ == old(self)@.write_ram(address, value),
            final(self)@.wf(),
    {
        let bank = self.ram_bank() as usize;
        let ram_size = match self.cartridge.get_ram_size() {
            Ok(size) => size,
            Err(_) => 0,
        };
        if self.ram_enable && ram_size > 0 {
            let bank_address = bank * 0x2000 + (address as usize) % 0x2000;
            self.cartridge.write_ram(bank_address % ram_size, value);
        }
    }
}

/// The second banked mapper. Its registers behave as those of `MapperMBC1`.
pub struct MapperMBC3 {
    inner: MapperMBC1,
}

impl View for MapperMBC3 {
    type V = BankingView;

    closed spec fn view(&self) -> BankingView {
        self.inner@
    }
}

impl MapperMBC3 {
    pub fn new(cartridge: Cartridge) -> (r: MapperMBC3)
        ensures
            r@ == BankingView::init(cartridge@),
            cartridge@.wf() ==> r@.wf(),
    {
        MapperMBC3 { inner: MapperMBC1::new(cartridge) }
    }

    pub fn cartridge(&self) -> (r: &Cartridge)
        ensures
            r@ == self@.cartridge,
    {
        self.inner.cartridge()
    }

    pub fn rom_bank_lower(&self) -> (r: u8)
        requires
            self@.wf(),
        ensures
            r == self@.rom_bank_lower(),
    {
        self.inner.rom_bank_lower()
    }

    pub fn rom_bank_upper(&self) -> (r: u8)
        requires
            self@.wf(),
        ensures
            r == self@.rom_bank_upper(),
    {
        self.inner.rom_bank_upper()
    }

    pub fn ram_bank(&self) -> (r: u8)
        requires
            self@.wf(),
        ensures
            r == self@.ram_bank(),
    {
        self.inner.ram_bank()
    }

    pub fn read_rom(&self, address: u16) -> (r: u8)
        requires
            self@.wf(),
        ensures
            r == self@.read_rom(address),
    {
        self.inner.read_rom(address)
    }

    pub fn read_ram(&self, address: u16) -> (r: u8)
        requires
            self@.wf(),
        ensures
            r == self@.read_ram(address),
    {
        self.inner.read_ram(address)
    }

    pub fn write_rom(&mut self, address: u16, value: u8)
        requires
            old(self)@.wf(),
            address < 0x8000,
        ensures
            final(self)@ == old(self)@.write_rom(address, value),
            final(self)@.wf(),
    {
        self.inner.write_rom(address, value);
    }

    pub fn write_ram(&mut self, address: u16, value: u8)
        requires
            old(self)@.wf(),
        ensures
            final(self)@ == old(self)@.write_ram(address, value),
            final(self)@.wf(),
    {
        self.inner.write_ram(address, value);
    }
}

/// The mapper of a cartridge, chosen once from its type byte.
pub enum Mapper {
    Unbanked(MapperNone),
    MBC1(MapperMBC1),
    MBC3(MapperMBC3),
}

impl View for Mapper {
    type V = MapperView;

    closed spec fn view(&self) -> MapperView {
        match self {
            Mapper::Unbanked(m) => MapperView::Unbanked(m@),
            Mapper::MBC1(m) => MapperView::MBC1(m@),
            Mapper::MBC3(m) => MapperView::MBC3(m@),
        }
    }
}

impl Mapper {
    /// Whether a mapper exists for the cartridge.
    pub fn supports(cartridge: &Cartridge) -> (r: bool)
        requires
            cartridge@.wf(),
        ensures
            r == supported(cartridge@.cartridge_type().mapper),
    {
        match cartridge.get_type().get_mapper() {
            CartridgeMapper::NONE | CartridgeMapper::MBC1 | CartridgeMapper::MBC3 => true,
            _ => false,
        }
    }

    /// Builds the mapper that the cartridge's type byte selects.
    pub fn new(cartridge: Cartridge) -> (r: Mapper)
        requires
            cartridge@.wf(),
            supported(cartridge@.cartridge_type().mapper),
        ensures
            r@ == MapperView::init(cartridge@),
            r@.wf(),
    {
        match cartridge.get_type().get_mapper() {
            CartridgeMapper::MBC1 => Mapper::MBC1(MapperMBC1::new(cartridge)),
            CartridgeMapper::MBC3 => Mapper::MBC3(MapperMBC3::new(cartridge)),
            _ => Mapper::Unbanked(MapperNone::new(cartridge)),
        }
    }

    pub fn cartridge(&self) -> (r: &Cartridge)
        ensures
            r@ == self@.cartridge(),
    {
        match self {
            Mapper::Unbanked(m) => m.cartridge(),
            Mapper::MBC1(m) => m.cartridge(),
            Mapper::MBC3(m) => m.cartridge(),
        }
    }

    /// A read from 0x0000..0x8000.
    pub fn read_rom(&self, address: u16) -> (r: u8)
        requires
            self@.wf(),
            address < 0x8000,
        ensures
            r == self@.read_rom(address),
    {
        match self {
            Mapper::Unbanked(m) => m.read_rom(address),
            Mapper::MBC1(m) => m.read_rom(address),
            Mapper::MBC3(m) => m.read_rom(address),
        }
    }

    /// A read from 0xA000..0xC000.
    pub fn read_ram(&self, address: u16) -> (r: u8)
        requires
            self@.wf(),
        ensures
            r == self@.read_ram(address),
    {
        match self {
            Mapper::Unbanked(m) => m.read_ram(address),
            Mapper::MBC1(m) => m.read_ram(address),
            Mapper::MBC3(m) => m.read_ram(address),
        }
    }

    /// A write to 0x0000..0x8000: bank control.
    pub fn write_rom(&mut self, address: u16, value: u8)
        requires
            old(self)@.wf(),
            address < 0x8000,
        ensures
            final(self)@ == old(self)@.write_rom(address, value),
            final(self)@.wf(),
    {
        match self {
            Mapper::Unbanked(m) => m.write_rom(address, value),
            Mapper::MBC1(m) => m.write_rom(address, value),
            Mapper::MBC3(m) => m.write_rom(address, value),
        }
    }

    /// A write to 0xA000..0xC000.
    pub fn write_ram(&mut self, address: u16, value: u8)
        requires
            old(self)@.wf(),
        ensures
            final(self)@ == old(self)@.write_ram(address, value),
            final(self)@.wf(),
    {
        match self {
            Mapper::Unbanked(m) => m.write_ram(address, value),
            Mapper::MBC1(m) => m.write_ram(address, value),
            Mapper::MBC3(m) => m.write_ram(address, value),
        }
    }
}

} // verus!
