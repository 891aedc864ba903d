//! The memory bus: the address decode of the whole 16-bit space, the I/O
//! register dispatch, the bootrom shadow, OAM DMA and the interrupt flags.

use vstd::prelude::*;
use crate::apu::{Apu, ApuView};
use crate::audio_system::AudioSystem;
use crate::bits::flag;
use crate::mapper::{Mapper, MapperView};
use crate::ppu::{is_vram_address, Ppu, PpuView};
use crate::timer::Timer;

verus! {

/// Bytes of the bootrom.
pub const BOOTROM_SIZE: usize = 0x100;

/// Bytes of the work RAM.
pub const WORK_RAM_SIZE: usize = 0x2000;

/// Bytes of the high RAM.
pub const HIGH_RAM_SIZE: usize = 0x7f;

/// Bytes that an OAM DMA copies.
pub const DMA_LENGTH: u16 = 0xa0;

/// The five interrupt sources. As a byte they sit in bits 4..0: Joypad,
/// Serial, Timer, LCD-Stat, VBlank.
#[derive(Clone, Copy, Debug, PartialEq, Eq, Structural)]
pub struct Interrupts {
    pub joypad: bool,
    pub serial: bool,
    pub timer: bool,
    pub lcd_stat: bool,
    pub vblank: bool,
}

impl Interrupts {
    pub open spec fn spec_empty() -> Interrupts {
        Interrupts { joypad: false, serial: false, timer: false, lcd_stat: false, vblank: false }
    }

    pub open spec fn spec_bits(self) -> u8 {
        (flag(self.joypad, 0x10) + flag(self.serial, 0x08) + flag(self.timer, 0x04) + flag(
            self.lcd_stat,
            0x02,
        ) + flag(self.vblank, 0x01)) as u8
    }

    pub open spec fn spec_from_bits_truncate(bits: u8) -> Interrupts {
        Interrupts {
            joypad: bits & 0x10 != 0,
            serial: bits & 0x08 != 0,
            timer: bits & 0x04 != 0,
            lcd_stat: bits & 0x02 != 0,
            vblank: bits & 0x01 != 0,
        }
    }

    pub fn empty() -> (r: Interrupts)
        ensures
            r == Interrupts::spec_empty(),
    {
        Interrupts { joypad: false, serial: false, timer: false, lcd_stat: false, vblank: false }
    }

    pub fn bits(&self) -> (r: u8)
        ensures
            r == self.spec_bits(),
            r <= 0x1f,
    {
        let b4: u8 = if self.joypad { 0x10 } else { 0 };
        let b3: u8 = if self.serial { 0x08 } else { 0 };
        let b2: u8 = if self.timer { 0x04 } else { 0 };
        let b1: u8 = if self.lcd_stat { 0x02 } else { 0 };
        let b0: u8 = if self.vblank { 0x01 } else { 0 };
        b4 + b3 + b2 + b1 + b0
    }

    pub fn from_bits_truncate(bits: u8) -> (r: Interrupts)
        ensures
            r == Interrupts::spec_from_bits_truncate(bits),
    {
        Interrupts {
            joypad: (bits & 0x10) != 0,
            serial: (bits & 0x08) != 0,
            timer: (bits & 0x04) != 0,
            lcd_stat: (bits & 0x02) != 0,
            vblank: (bits & 0x01) != 0,
        }
    }
}

/// The regions of the memory map.
#[derive(Clone, Copy, Debug, PartialEq, Eq, Structural)]
pub enum Region {
    /// 0x0000..0x8000: the bootrom shadow and the cartridge ROM.
    Rom,
    /// 0x8000..0xa000.
    VideoRam,
    /// 0xa000..0xc000.
    CartridgeRam,
    /// 0xc000..0xe000.
    WorkRam,
    /// 0xe000..0xfe00: the work RAM once more.
    Echo,
    /// 0xfe00..0xfea0.
    Oam,
    /// 0xfea0..0xff00.
    Unusable,
    /// 0xff00..0xff80.
    Io,
    /// 0xff80..0xffff.
    HighRam,
    /// 0xffff.
    InterruptEnable,
}

/// The region that an address belongs to.
pub open spec fn region(address: u16) -> Region {
    if address < 0x8000 {
        Region::Rom
    } else if address < 0xa000 {
        Region::VideoRam
    } else if address < 0xc000 {
        Region::CartridgeRam
    } else if address < 0xe000 {
        Region::WorkRam
    } else if address < 0xfe00 {
        Region::Echo
    } else if address < 0xfea0 {
        Region::Oam
    } else if address < 0xff00 {
        Region::Unusable
    } else if address < 0xff80 {
        Region::Io
    } else if address < 0xffff {
        Region::HighRam
    } else {
        Region::InterruptEnable
    }
}

/// Whether an address belongs to the work RAM or to the high RAM: plain
/// memory that holds what was written to it.
pub open spec fn is_ram(address: u16) -> bool {
    0xc000 <= address < 0xe000 || 0xff80 <= address < 0xffff
}

/// The registers that the bus itself holds.
#[derive(Clone, Copy, Debug, PartialEq, Eq, Structural)]
pub struct BusRegisters {
    /// The last byte moved.
    pub latch: u8,
    /// Whether the bootrom shadows the first 256 bytes.
    pub bootrom_enabled: bool,
    pub serial_buffer: u8,
    pub serial_control: u8,
    pub timer: Timer,
    pub interrupt_enable: Interrupts,
    pub interrupt_flag: Interrupts,
}

impl BusRegisters {
    pub open spec fn spec_new() -> BusRegisters {
        BusRegisters {
            latch: 0,
            bootrom_enabled: true,
            serial_buffer: 0,
            serial_control: 0,
            timer: Timer::spec_new(),
            interrupt_enable: Interrupts::spec_empty(),
            interrupt_flag: Interrupts::spec_empty(),
        }
    }

    /// What the serial and timer registers read as; other addresses read
    /// 0xff.
    pub open spec fn spec_read(self, address: u16) -> u8 {
        if address == 0xff01 {
            self.serial_buffer
        } else if address == 0xff02 {
            self.serial_control
        } else if address == 0xff04 {
            (self.timer.divider >> 8) as u8
        } else if address == 0xff05 {
            self.timer.counter
        } else if address == 0xff06 {
            self.timer.modulo
        } else if address == 0xff07 {
            self.timer.spec_tac_read()
        } else {
            0xff
        }
    }

    /// The registers after a write to a serial or timer register, to the
    /// interrupt flags at 0xff0f (replaced verbatim) or to the bootrom
    /// disable register at 0xff50 (any write unmaps the bootrom for good).
    /// Other addresses ignore the write.
    pub open spec fn spec_write(self, address: u16, value: u8) -> BusRegisters {
        if address == 0xff01 {
            BusRegisters { serial_buffer: value, ..self }
        } else if address == 0xff02 {
            BusRegisters { serial_control: value, ..self }
        } else if address == 0xff04 {
            BusRegisters { timer: Timer { divider: 0, ..self.timer }, ..self }
        } else if address == 0xff05 {
            BusRegisters { timer: Timer { counter: value, ..self.timer }, ..self }
        } else if address == 0xff06 {
            BusRegisters { timer: Timer { modulo: value, ..self.timer }, ..self }
        } else if address == 0xff07 {
            BusRegisters { timer: self.timer.spec_tac_write(value), ..self }
        } else if address == 0xff0f {
            BusRegisters { interrupt_flag: Interrupts::spec_from_bits_truncate(value), ..self }
        } else if address == 0xff50 {
            BusRegisters { bootrom_enabled: false, ..self }
        } else {
            self
        }
    }

    pub fn new() -> (r: BusRegisters)
        ensures
            r == BusRegisters::spec_new(),
            r.timer.wf(),
    {
        BusRegisters {
            latch: 0,
            bootrom_enabled: true,
            serial_buffer: 0,
            serial_control: 0,
            timer: Timer::new(),
            interrupt_enable: Interrupts::empty(),
            interrupt_flag: Interrupts::empty(),
        }
    }

    pub fn read(&self, address: u16) -> (r: u8)
        ensures
            r == self.spec_read(address),
    {
        match address {
            0xff01 => self.serial_buffer,
            0xff02 => self.serial_control,
            0xff04 => self.timer.div_read(),
            0xff05 => self.timer.tima_read(),
            0xff06 => self.timer.tma_read(),
            0xff07 => self.timer.tac_read(),
            _ => 0xff,
        }
    }

    pub fn write(&self, address: u16, value: u8) -> (r: BusRegisters)
        requires
            self.timer.wf(),
        ensures
            r == self.spec_write(address, value),
            r.timer.wf(),
    {
        let mut timer = self.timer;
        if address == 0xff01 {
            BusRegisters { serial_buffer: value, ..*self }
        } else if address == 0xff02 {
            BusRegisters { serial_control: value, ..*self }
        } else if address == 0xff04 {
            timer.div_write(value);
            BusRegisters { timer, ..*self }
        } else if address == 0xff05 {
            timer.tima_write(value);
            BusRegisters { timer, ..*self }
        } else if address == 0xff06 {
            timer.tma_write(value);
            BusRegisters { timer, ..*self }
        } else if address == 0xff07 {
            timer.tac_write(value);
            BusRegisters { timer, ..*self }
        } else if address == 0xff0f {
            BusRegisters { interrupt_flag: Interrupts::from_bits_truncate(value), ..*self }
        } else if address == 0xff50 {
            BusRegisters { bootrom_enabled: false, ..*self }
        } else {
            *self
        }
    }
}

/// Everything behind the bus, as data.
pub struct BusView {
    pub regs: BusRegisters,
    pub bootrom: Seq<u8>,
    pub mapper: MapperView,
    pub apu: ApuView,
    pub ppu: PpuView,
    pub work_ram: Seq<u8>,
    pub high_ram: Seq<u8>,
}

impl BusView {
    pub open spec fn wf(self) -> bool {
        &&& self.bootrom.len() == BOOTROM_SIZE
        &&& self.mapper.wf()
        &&& self.apu.wf()
        &&& self.ppu.wf()
        &&& self.work_ram.len() == WORK_RAM_SIZE
        &&& self.regs.timer.wf()
        &&& self.high_ram.len() == HIGH_RAM_SIZE
    }

    /// The bus after power-on: the bootrom mapped, the memories cleared.
    pub open spec fn init(mapper: MapperView, apu: ApuView, bootrom: Seq<u8>) -> BusView {
        BusView {
            regs: BusRegisters::spec_new(),
            bootrom,
            mapper,
            apu,
            ppu: PpuView::init(),
            work_ram: Seq::new(WORK_RAM_SIZE as nat, |i: int| 0u8),
            high_ram: Seq::new(HIGH_RAM_SIZE as nat, |i: int| 0u8),
        }
    }

    /// The bus with other registers.
    pub open spec fn with_regs(self, regs: BusRegisters) -> BusView {
        BusView { regs, ..self }
    }

    /// The interrupt flags once the edges that the joypad, the timer and the
    /// PPU hold pending are collected; collecting clears them at the source.
    #[verifier::opaque]
    pub open spec fn process_interrupt_flag(self) -> BusView {
        BusView {
            regs: BusRegisters {
                interrupt_flag: Interrupts {
                    joypad: self.regs.interrupt_flag.joypad || self.ppu.controller.interrupt,
                    timer: self.regs.interrupt_flag.timer || self.regs.timer.interrupt,
                    lcd_stat: self.regs.interrupt_flag.lcd_stat || self.ppu.stat_interrupt,
                    vblank: self.regs.interrupt_flag.vblank || self.ppu.vblank,
                    serial: self.regs.interrupt_flag.serial,
                },
                timer: Timer { interrupt: false, ..self.regs.timer },
                ..self.regs
            },
            ppu: self.ppu.without_interrupts(),
            ..self
        }
    }

    /// What an I/O register other than the interrupt flags reads as: the
    /// joypad at 0xff00, the APU at 0xff10..0xff40, the PPU at
    /// 0xff40..0xff4c, the bus's own registers elsewhere. Addresses without
    /// a register read 0xff.
    #[verifier::opaque]
    pub open spec fn io_value(self, address: u16) -> u8 {
        if address == 0xff00 {
            self.ppu.controller.spec_read()
        } else if 0xff10 <= address < 0xff40 {
            self.apu.read_register(address)
        } else if 0xff40 <= address < 0xff4c {
            self.ppu.read_register(address)
        } else {
            self.regs.spec_read(address)
        }
    }

    /// A read of 0xff00..0xff80. A read of the interrupt flags at 0xff0f
    /// first collects the pending edges.
    #[verifier::opaque]
    pub open spec fn io_read(self, address: u16) -> (BusView, u8) {
        if address == 0xff0f {
            let collected = self.process_interrupt_flag();
            (collected, collected.regs.interrupt_flag.spec_bits())
        } else {
            (self, self.io_value(address))
        }
    }

    /// What a memory address outside 0xff00..0xff80 reads as.
    #[verifier::opaque]
    pub open spec fn memory_value(self, address: u16) -> u8 {
        match region(address) {
            Region::Rom => if address < BOOTROM_SIZE && self.regs.bootrom_enabled {
                self.bootrom[address as int]
            } else {
                self.mapper.read_rom(address)
            },
            Region::VideoRam | Region::Oam => self.ppu.vram_read(address),
            Region::CartridgeRam => self.mapper.read_ram(address),
            Region::WorkRam => self.work_ram[address - 0xc000],
            Region::Echo => self.work_ram[address - 0xe000],
            Region::Unusable => 0x00,
            Region::HighRam => self.high_ram[address - 0xff80],
            _ => self.regs.interrupt_enable.spec_bits(),
        }
    }

    /// A read of any address: the state after it and the byte read, which
    /// is also the new latch.
    #[verifier::opaque]
    pub open spec fn read(self, address: u16) -> (BusView, u8) {
        let (after, value) = if region(address) is Io {
            self.io_read(address)
        } else {
            (self, self.memory_value(address))
        };
        (after.with_regs(BusRegisters { latch: value, ..after.regs }), value)
    }

    /// The bus after the first `count` bytes of an OAM DMA from `source`:
    /// each byte is read as the CPU would read it and lands in OAM.
    #[verifier::opaque]
    pub open spec fn dma(self, source: u16, count: nat) -> BusView
        decreases count,
    {
        if count == 0 {
            self
        } else {
            let (read, value) = self.dma(source, (count - 1) as nat).read(
                (source + count - 1) as u16,
            );
            BusView { ppu: read.ppu.vram_write((0xfe00 + count - 1) as u16, value), ..read }
        }
    }

    /// A write to 0xff00..0xff80: the joypad at 0xff00, the APU at
    /// 0xff10..0xff40, an OAM DMA from `value << 8` at 0xff46, the PPU at
    /// the rest of 0xff40..0xff4c, the bus's own registers elsewhere.
    #[verifier::opaque]
    pub open spec fn io_write(self, address: u16, value: u8) -> BusView {
        if address == 0xff00 {
            BusView {
                ppu: PpuView { controller: self.ppu.controller.spec_write(value), ..self.ppu },
                ..self
            }
        } else if 0xff10 <= address < 0xff40 {
            BusView { apu: self.apu.write_register(address, value), ..self }
        } else if address == 0xff46 {
            self.dma((value * 0x100) as u16, DMA_LENGTH as nat)
        } else if 0xff40 <= address < 0xff4c {
            BusView { ppu: self.ppu.write_register(address, value), ..self }
        } else {
            self.with_regs(self.regs.spec_write(address, value))
        }
    }

    /// The bus after a write of `value` to a memory address outside
    /// 0xff00..0xff80. Writes to 0xfea0..0xff00 are ignored.
    #[verifier::opaque]
    pub open spec fn memory_write(self, address: u16, value: u8) -> BusView {
        match region(address) {
            Region::Rom => BusView { mapper: self.mapper.write_rom(address, value), ..self },
            Region::VideoRam | Region::Oam => BusView {
                ppu: self.ppu.vram_write(address, value),
                ..self
            },
            Region::CartridgeRam => BusView {
                mapper: self.mapper.write_ram(address, value),
                ..self
            },
            Region::WorkRam => BusView {
                work_ram: self.work_ram.update(address - 0xc000, value),
                ..self
            },
            Region::Echo => BusView {
                work_ram: self.work_ram.update(address - 0xe000, value),
                ..self
            },
            Region::Unusable => self,
            Region::HighRam => BusView {
                high_ram: self.high_ram.update(address - 0xff80, value),
                ..self
            },
            _ => self.with_regs(
                BusRegisters {
                    interrupt_enable: Interrupts::spec_from_bits_truncate(value),
                    ..self.regs
                },
            ),
        }
    }

    /// A write to any address; the byte is also the new latch.
    #[verifier::opaque]
    pub open spec fn write(self, address: u16, value: u8) -> BusView {
        let latched = self.with_regs(BusRegisters { latch: value, ..self.regs });
        if region(address) is Io {
            latched.io_write(address, value)
        } else {
            latched.memory_write(address, value)
        }
    }

    /// One base clock of the APU, the PPU and the timer.
    #[verifier::opaque]
    pub open spec fn tick_clock(self) -> BusView {
        BusView {
            apu: self.apu.tick(1),
            ppu: self.ppu.tick(1),
            regs: BusRegisters { timer: self.regs.timer.spec_tick(1), ..self.regs },
            ..self
        }
    }

    /// One machine cycle: four base clocks.
    #[verifier::opaque]
    pub open spec fn tick(self) -> BusView {
        self.tick_clock().tick_clock().tick_clock().tick_clock()
    }

    /// Whether the work RAM and the high RAM have their sizes.
    pub open spec fn ram_wf(self) -> bool {
        self.work_ram.len() == WORK_RAM_SIZE && self.high_ram.len() == HIGH_RAM_SIZE
    }

    /// The byte that a RAM address holds.
    pub open spec fn ram_byte(self, address: u16) -> u8 {
        if address < 0xe000 {
            self.work_ram[address - 0xc000]
        } else {
            self.high_ram[address - 0xff80]
        }
    }

    /// Whether a byte written to an address is kept where a read of the
    /// address finds it: in video memory, work RAM (also through its echo),
    /// OAM and high RAM always, in external RAM where the mapper keeps it.
    /// ROM, the unusable area and the registers do not hold what is written.
    pub open spec fn holds_writes(self, address: u16) -> bool {
        match region(address) {
            Region::VideoRam | Region::WorkRam | Region::Echo | Region::Oam | Region::HighRam => true,
            Region::CartridgeRam => self.mapper.ram_holds_writes(address),
            _ => false,
        }
    }

    /// Whether the memories behind the bus have their sizes.
    pub open spec fn memory_wf(self) -> bool {
        &&& self.mapper.wf()
        &&& self.ram_wf()
        &&& self.ppu.tile_ram.len() == 0x1800
        &&& self.ppu.background_ram.len() == 0x800
        &&& self.ppu.sprite_oam.len() == 0xa0
    }

    /// Whether two buses hold the same memories behind the same mapper.
    pub open spec fn same_memory(self, other: BusView) -> bool {
        &&& self.mapper == other.mapper
        &&& self.work_ram == other.work_ram
        &&& self.high_ram == other.high_ram
        &&& self.ppu.same_memory(other.ppu)
    }

    /// The byte that a read of an address gives.
    pub open spec fn stored(self, address: u16) -> u8 {
        self.read(address).1
    }

    /// Buses with the same memories give the same byte at every address
    /// that holds writes.
    pub proof fn lemma_same_memory(b: BusView, other: BusView, address: u16)
        requires
            b.same_memory(other),
            b.holds_writes(address),
        ensures
            other.holds_writes(address),
            other.stored(address) == b.stored(address),
    {
        reveal(BusView::read);
        reveal(BusView::memory_value);
    }

    /// A machine cycle leaves the memories alone.
    pub proof fn lemma_tick_keeps_memory(b: BusView)
        ensures
            b.tick().same_memory(b),
    {
        reveal(BusView::tick);
        reveal(BusView::tick_clock);
        let b1 = b.tick_clock();
        let b2 = b1.tick_clock();
        let b3 = b2.tick_clock();
        PpuView::lemma_tick_keeps_memory(b.ppu, 1);
        PpuView::lemma_tick_keeps_memory(b1.ppu, 1);
        PpuView::lemma_tick_keeps_memory(b2.ppu, 1);
        PpuView::lemma_tick_keeps_memory(b3.ppu, 1);
    }

    /// A read leaves the memories alone.
    pub proof fn lemma_read_keeps_memory(b: BusView, address: u16)
        ensures
            b.read(address).0.same_memory(b),
    {
        reveal(BusView::read);
        reveal(BusView::io_read);
        reveal(BusView::process_interrupt_flag);
    }

    /// A write to an address that holds writes stores the byte there and
    /// leaves the bytes at the two addresses next to it alone.
    pub proof fn lemma_write_memory(b: BusView, address: u16, value: u8)
        requires
            b.memory_wf(),
            b.holds_writes(address),
        ensures
            b.write(address, value).memory_wf(),
            b.write(address, value).stored(address) == value,
            forall|other: u16| #[trigger]
                b.write(address, value).holds_writes(other) == b.holds_writes(other),
            forall|other: u16|
                b.holds_writes(other) && (other == address + 1 || other + 1 == address)
                    ==> #[trigger] b.write(address, value).stored(other) == b.stored(other),
    {
        reveal(BusView::write);
        reveal(BusView::memory_write);
        reveal(BusView::read);
        reveal(BusView::memory_value);
        if region(address) is CartridgeRam {
            MapperView::lemma_ram_write_read(b.mapper, address, value);
        }
    }

    /// The OAM once the first `count` bytes of a DMA from a page of RAM have
    /// arrived.
    pub open spec fn oam_after_dma(self, source: u16, count: nat) -> Seq<u8> {
        Seq::new(
            self.ppu.sprite_oam.len(),
            |i: int|
                if i < count {
                    self.ram_byte((source + i) as u16)
                } else {
                    self.ppu.sprite_oam[i]
                },
        )
    }

    /// An OAM DMA from a page of RAM copies the first 160 bytes of the page
    /// into OAM, leaves the last of them in the latch, and changes nothing
    /// else.
    pub proof fn lemma_dma_from_ram(b: BusView, source: u16, count: nat)
        requires
            b.ppu.sprite_oam.len() == DMA_LENGTH,
            b.ram_wf(),
            0xc000 <= source,
            source + DMA_LENGTH <= 0xe000,
            count <= DMA_LENGTH,
        ensures
            b.dma(source, count) == (BusView {
                ppu: PpuView { sprite_oam: b.oam_after_dma(source, count), ..b.ppu },
                regs: BusRegisters {
                    latch: if count == 0 {
                        b.regs.latch
                    } else {
                        b.ram_byte((source + count - 1) as u16)
                    },
                    ..b.regs
                },
                ..b
            }),
        decreases count,
    {
        reveal_with_fuel(BusView::dma, 2);
        if count == 0 {
            assert(b.oam_after_dma(source, 0) =~= b.ppu.sprite_oam);
        } else {
            let before = b.dma(source, (count - 1) as nat);
            BusView::lemma_dma_from_ram(b, source, (count - 1) as nat);
            let address = (source + count - 1) as u16;
            reveal(BusView::read);
            reveal(BusView::memory_value);
            let (read, value) = before.read(address);
            assert(before.work_ram == b.work_ram);
            assert(value == b.ram_byte(address));
            assert(read.ppu == before.ppu);
            let oam = read.ppu.vram_write((0xfe00 + count - 1) as u16, value).sprite_oam;
            assert(oam =~= b.oam_after_dma(source, count));
        }
    }

    /// The address decode is total: every address belongs to exactly one
    /// region of the memory map.
    pub proof fn lemma_decode_total(address: u16)
        ensures
            region(address) is Rom || region(address) is VideoRam || region(address) is CartridgeRam
                || region(address) is WorkRam || region(address) is Echo || region(address) is Oam
                || region(address) is Unusable || region(address) is Io || region(address)
                is HighRam || region(address) is InterruptEnable,
            region(address) is Io <==> 0xff00 <= address < 0xff80,
            (region(address) is VideoRam || region(address) is Oam) <==> is_vram_address(address),
            (region(address) is WorkRam || region(address) is HighRam) <==> is_ram(address),
    {
    }

    /// Collecting the pending interrupts keeps the bus well-formed.
    pub proof fn lemma_process_interrupt_flag_wf(b: BusView)
        requires
            b.wf(),
        ensures
            b.process_interrupt_flag().wf(),
    {
        reveal(BusView::process_interrupt_flag);
    }
}

pub struct Bus {
    regs: BusRegisters,
    bootrom: Vec<u8>,
    mapper: Mapper,
    apu: Apu,
    ppu: Ppu,
    work_ram: Vec<u8>,
    high_ram: Vec<u8>,
}

impl View for Bus {
    type V = BusView;

    closed spec fn view(&self) -> BusView {
        BusView {
            regs: self.regs,
            bootrom: self.bootrom@,
            mapper: self.mapper@,
            apu: self.apu@,
            ppu: self.ppu@,
            work_ram: self.work_ram@,
            high_ram: self.high_ram@,
        }
    }
}

impl Bus {
    /// Builds the bus around a mapper, an audio sink and the 256 bytes of
    /// the bootrom.
    pub fn new(mapper: Mapper, audio_system: AudioSystem, bootrom: Vec<u8>) -> (r: Bus)
        requires
            mapper@.wf(),
            bootrom@.len() == BOOTROM_SIZE,
        ensures
            r@ == BusView::init(
                mapper@,
                ApuView { audio_system: audio_system@, ..ApuView::init() },
                bootrom@,
            ),
            r@.wf(),
    {
        let r = Bus {
            regs: BusRegisters::new(),
            bootrom,
            mapper,
            apu: Apu::new(audio_system),
            ppu: Ppu::new(),
            work_ram: vec![0u8; WORK_RAM_SIZE],
            high_ram: vec![0u8; HIGH_RAM_SIZE],
        };
        assert(r@.work_ram =~= Seq::new(WORK_RAM_SIZE as nat, |i: int| 0u8));
        assert(r@.high_ram =~= Seq::new(HIGH_RAM_SIZE as nat, |i: int| 0u8));
        r
    }

    /// The PPU, for the host to feed the joypad and to collect frames.
    pub fn ppu(&mut self) -> (r: &mut Ppu)
        ensures
            r@ == old(self)@.ppu,
            final(self)@ == (BusView { ppu: final(r)@, ..old(self)@ }),
    {
        &mut self.ppu
    }

    /// The APU, for the host to collect samples.
    pub fn apu(&mut self) -> (r: &mut Apu)
        ensures
            r@ == old(self)@.apu,
            final(self)@ == (BusView { apu: final(r)@, ..old(self)@ }),
    {
        &mut self.apu
    }

    /// Whether the bootrom still shadows the first 256 bytes.
    pub fn bootrom_enabled(&self) -> (r: bool)
        ensures
            r == self@.regs.bootrom_enabled,
    {
        self.regs.bootrom_enabled
    }

    /// The mapper, for the host to describe the cartridge.
    pub fn mapper(&self) -> (r: &Mapper)
        ensures
            r@ == self@.mapper,
    {
        &self.mapper
    }

    fn memory_value(&self, address: u16) -> (r: u8)
        requires
            self@.wf(),
            !(0xff00 <= address < 0xff80),
        ensures
            r == self@.memory_value(address),
    {
        proof {
            reveal(BusView::memory_value);
        }
        if address < 0x0100 && self.regs.bootrom_enabled {
            self.bootrom[address as usize]
        } else if address < 0x8000 {
            self.mapper.read_rom(address)
        } else if address < 0xa000 {
            self.ppu.vram_read(address)
        } else if address < 0xc000 {
            self.mapper.read_ram(address)
        } else if address < 0xe000 {
            self.work_ram[address as usize - 0xc000]
        } else if address < 0xfe00 {
            self.work_ram[address as usize - 0xe000]
        } else if address < 0xfea0 {
            self.ppu.vram_read(address)
        } else if address < 0xff00 {
            0x00
        } else if address < 0xffff {
            self.high_ram[address as usize - 0xff80]
        } else {
            self.regs.interrupt_enable.bits()
        }
    }

    fn set_regs(&mut self, regs: BusRegisters)
        ensures
            final(self)@ == old(self)@.with_regs(regs),
    {
        self.regs = regs;
    }

    /// Reads a byte. Every address is decoded.
    pub fn read(&mut self, address: u16) -> (r: u8)
        requires
            old(self)@.wf(),
        ensures
            (final(self)@, r) == old(self)@.read(address),
            final(self)@.wf(),
    {
        proof {
            reveal(BusView::read);
        }
        let value = if address >= 0xff00 && address < 0xff80 {
            self.io_read(address)
        } else {
            self.memory_value(address)
        };
        self.set_regs(BusRegisters { latch: value, ..self.regs });
        value
    }

    fn write_work_ram(&mut self, index: usize, value: u8)
        requires
            old(self)@.wf(),
            index < WORK_RAM_SIZE,
        ensures
            final(self)@ == (BusView {
                work_ram: old(self)@.work_ram.update(index as int, value),
                ..old(self)@
            }),
            final(self)@.wf(),
    {
        self.work_ram[index] = value;
    }

    fn write_high_ram(&mut self, index: usize, value: u8)
        requires
            old(self)@.wf(),
            index < HIGH_RAM_SIZE,
        ensures
            final(self)@ == (BusView {
                high_ram: old(self)@.high_ram.update(index as int, value),
                ..old(self)@
            }),
            final(self)@.wf(),
    {
        self.high_ram[index] = value;
    }

    fn video_write(&mut self, address: u16, value: u8)
        requires
            old(self)@.wf(),
            is_vram_address(address),
        ensures
            final(self)@ == (BusView {
                ppu: old(self)@.ppu.vram_write(address, value),
                ..old(self)@
            }),
            final(self)@.wf(),
    {
        self.ppu.vram_write(address, value);
    }

    fn cartridge_write(&mut self, address: u16, value: u8)
        requires
            old(self)@.wf(),
            address < 0x8000 || 0xa000 <= address < 0xc000,
        ensures
            final(self)@ == (BusView {
                mapper: if address < 0x8000 {
                    old(self)@.mapper.write_rom(address, value)
                } else {
                    old(self)@.mapper.write_ram(address, value)
                },
                ..old(self)@
            }),
            final(self)@.wf(),
    {
        if address < 0x8000 {
            self.mapper.write_rom(address, value);
        } else {
            self.mapper.write_ram(address, value);
        }
    }

    fn memory_write(&mut self, address: u16, value: u8)
        requires
            old(self)@.wf(),
            !(0xff00 <= address < 0xff80),
        ensures
            final(self)@ == old(self)@.memory_write(address, value),
            final(self)@.wf(),
    {
        proof {
            reveal(BusView::memory_write);
        }
        if address < 0x8000 {
            self.cartridge_write(address, value);
        } else if address < 0xa000 {
            self.video_write(address, value);
        } else if address < 0xc000 {
            self.cartridge_write(address, value);
        } else if address < 0xe000 {
            self.write_work_ram(address as usize - 0xc000, value);
        } else if address < 0xfe00 {
            self.write_work_ram(address as usize - 0xe000, value);
        } else if address < 0xfea0 {
            self.video_write(address, value);
        } else if address < 0xff00 {
        } else if address < 0xffff {
            self.write_high_ram(address as usize - 0xff80, value);
        } else {
            self.set_regs(
                BusRegisters {
                    interrupt_enable: Interrupts::from_bits_truncate(value),
                    ..self.regs
                },
            );
        }
    }

    /// Writes a byte. Every address is decoded.
    pub fn write(&mut self, address: u16, value: u8)
        requires
            old(self)@.wf(),
        ensures
            final(self)@ == old(self)@.write(address, value),
            final(self)@.wf(),
    {
        proof {
            reveal(BusView::write);
        }
        self.set_regs(BusRegisters { latch: value, ..self.regs });
        if address >= 0xff00 && address < 0xff80 {
            self.io_write(address, value);
        } else {
            self.memory_write(address, value);
        }
    }

    fn io_value(&self, address: u16) -> (r: u8)
        requires
            self@.wf(),
        ensures
            r == self@.io_value(address),
    {
        proof {
            reveal(BusView::io_value);
        }
        if address == 0xff00 {
            self.ppu.controller_read()
        } else if 0xff10 <= address && address < 0xff40 {
            self.apu.read_register(address)
        } else if 0xff40 <= address && address < 0xff4c {
            self.ppu.read_register(address)
        } else {
            self.regs.read(address)
        }
    }

    fn io_read(&mut self, address: u16) -> (r: u8)
        requires
            old(self)@.wf(),
        ensures
            (final(self)@, r) == old(self)@.io_read(address),
            final(self)@.wf(),
    {
        proof {
            reveal(BusView::io_read);
        }
        if address == 0xff0f {
            return self.process_interrupt_flag();
        }
        self.io_value(address)
    }

    /// Copies 160 bytes from `source` into OAM.
    fn dma(&mut self, source: u16)
        requires
            old(self)@.wf(),
            source <= 0xff00,
        ensures
            final(self)@ == old(self)@.dma(source, DMA_LENGTH as nat),
            final(self)@.wf(),
    {
        proof {
            reveal_with_fuel(BusView::dma, 2);
        }
        let mut i: u16 = 0;
        while i < DMA_LENGTH
            invariant
                i <= DMA_LENGTH,
                source <= 0xff00,
                self@.wf(),
                self@ == old(self)@.dma(source, i as nat),
            decreases DMA_LENGTH - i,
        {
            proof {
                reveal_with_fuel(BusView::dma, 2);
            }
            let data = self.read(source + i);
            self.video_write(0xfe00 + i, data);
            i += 1;
        }
    }

    fn controller_write(&mut self, value: u8)
        requires
            old(self)@.wf(),
        ensures
            final(self)@ == (BusView {
                ppu: PpuView {
                    controller: old(self)@.ppu.controller.spec_write(value),
                    ..old(self)@.ppu
                },
                ..old(self)@
            }),
            final(self)@.wf(),
    {
        self.ppu.controller_write(value);
    }

    fn apu_write(&mut self, address: u16, value: u8)
        requires
            old(self)@.wf(),
            0xff10 <= address < 0xff40,
        ensures
            final(self)@ == (BusView {
                apu: old(self)@.apu.write_register(address, value),
                ..old(self)@
            }),
            final(self)@.wf(),
    {
        self.apu.write_register(address, value);
    }

    fn ppu_write(&mut self, address: u16, value: u8)
        requires
            old(self)@.wf(),
        ensures
            final(self)@ == (BusView {
                ppu: old(self)@.ppu.write_register(address, value),
                ..old(self)@
            }),
            final(self)@.wf(),
    {
        self.ppu.write_register(address, value);
    }

    fn regs_write(&mut self, address: u16, value: u8)
        requires
            old(self)@.wf(),
        ensures
            final(self)@ == old(self)@.with_regs(old(self)@.regs.spec_write(address, value)),
            final(self)@.wf(),
    {
        let regs = self.regs.write(address, value);
        self.set_regs(regs);
    }

    fn io_write(&mut self, address: u16, value: u8)
        requires
            old(self)@.wf(),
        ensures
            final(self)@ == old(self)@.io_write(address, value),
            final(self)@.wf(),
    {
        proof {
            reveal(BusView::io_write);
        }
        if address == 0xff00 {
            self.controller_write(value);
        } else if 0xff10 <= address && address < 0xff40 {
            self.apu_write(address, value);
        } else if address == 0xff46 {
            self.dma(value as u16 * 0x100);
        } else if 0xff40 <= address && address < 0xff4c {
            self.ppu_write(address, value);
        } else {
            self.regs_write(address, value);
        }
    }

    fn process_interrupt_flag(&mut self) -> (r: u8)
        requires
            old(self)@.wf(),
        ensures
            final(self)@ == old(self)@.process_interrupt_flag(),
            r == final(self)@.regs.interrupt_flag.spec_bits(),
            final(self)@.wf(),
    {
        proof {
            reveal(BusView::process_interrupt_flag);
            BusView::lemma_process_interrupt_flag_wf(old(self)@);
        }
        let (joypad, lcd_stat, vblank) = self.ppu.take_interrupts();
        let mut timer = self.regs.timer;
        let timer_pending = timer.get_interrupt_status();
        let collected = Interrupts {
            joypad: self.regs.interrupt_flag.joypad || joypad,
            serial: self.regs.interrupt_flag.serial,
            timer: self.regs.interrupt_flag.timer || timer_pending,
            lcd_stat: self.regs.interrupt_flag.lcd_stat || lcd_stat,
            vblank: self.regs.interrupt_flag.vblank || vblank,
        };
        self.set_regs(BusRegisters { interrupt_flag: collected, timer, ..self.regs });
        collected.bits()
    }

    fn tick_clock(&mut self)
        requires
            old(self)@.wf(),
        ensures
            final(self)@ == old(self)@.tick_clock(),
            final(self)@.wf(),
    {
        proof {
            reveal(BusView::tick_clock);
        }
        self.apu.tick(1);
        self.ppu.tick(1);
        let mut timer = self.regs.timer;
        timer.tick(1);
        self.set_regs(BusRegisters { timer, ..self.regs });
    }

    /// Advances the PPU, the APU and the timer by one machine cycle.
    pub fn tick(&mut self)
        requires
            old(self)@.wf(),
        ensures
            final(self)@ == old(self)@.tick(),
            final(self)@.wf(),
    {
        proof {
            reveal(BusView::tick);
        }
        self.tick_clock();
        self.tick_clock();
        self.tick_clock();
        self.tick_clock();
    }
}

} // verus!
