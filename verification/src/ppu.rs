//! The pixel processing unit: its registers, the four-mode state machine
//! that walks the scanlines, and the renderer that fills one framebuffer row
//! per visible scanline.

use vstd::prelude::*;
use crate::bits::{flag, lemma_byte_bits};
use crate::controller::Controller;

verus! {

pub const PPU_DISPLAY_WIDTH: usize = 160;

pub const PPU_DISPLAY_HEIGHT: usize = 144;

pub const PPU_OAM_CLOCKS: u16 = 80;

pub const PPU_VRAM_CLOCKS: u16 = 172;

pub const PPU_HBLANK_CLOCKS: u16 = 204;

pub const PPU_VBLANK_CLOCKS: u16 = 456;

pub const PPU_VBLANK_START: u8 = 144;

pub const PPU_VBLANK_END: u8 = 154;

/// Base clocks of one scanline.
pub const PPU_LINE_CLOCKS: u16 = 456;

/// Base clocks of one frame: 154 scanlines.
pub const PPU_FRAME_CLOCKS: u32 = 70224;

#[derive(Clone, Copy, Debug, PartialEq, Eq, Structural)]
pub enum PpuMode {
    OAM,
    VRAM,
    HBLANK,
    VBLANK,
}

impl PpuMode {
    /// Base clocks that the mode lasts (per scanline, for VBLANK).
    pub open spec fn spec_clocks(self) -> u16 {
        match self {
            PpuMode::OAM => PPU_OAM_CLOCKS,
            PpuMode::VRAM => PPU_VRAM_CLOCKS,
            PpuMode::HBLANK => PPU_HBLANK_CLOCKS,
            PpuMode::VBLANK => PPU_VBLANK_CLOCKS,
        }
    }

    /// The mode as the two low bits of STAT.
    pub open spec fn spec_code(self) -> u8 {
        match self {
            PpuMode::HBLANK => 0,
            PpuMode::VBLANK => 1,
            PpuMode::OAM => 2,
            PpuMode::VRAM => 3,
        }
    }

    /// Base clocks from the start of the scanline to the start of the mode.
    pub open spec fn spec_offset(self) -> int {
        match self {
            PpuMode::OAM => 0,
            PpuMode::VRAM => 80,
            PpuMode::HBLANK => 252,
            PpuMode::VBLANK => 0,
        }
    }
}

#[derive(Clone, Copy, Debug, PartialEq, Eq, Structural)]
pub enum PpuSpriteSize {
    NORMAL,
    TALL,
}

/// The LCD control byte, one field per bit.
#[derive(Clone, Copy, Debug, PartialEq, Eq, Structural)]
pub struct PpuControl {
    pub lcd_enable: bool,
    pub window_tile_address: bool,
    pub window_enable: bool,
    pub background_pattern_address: bool,
    pub background_tile_address: bool,
    pub sprite_size: PpuSpriteSize,
    pub sprite_enable: bool,
    pub background_enable: bool,
}

impl PpuControl {
    pub open spec fn spec_new() -> PpuControl {
        PpuControl {
            lcd_enable: false,
            window_tile_address: false,
            window_enable: false,
            background_pattern_address: false,
            background_tile_address: false,
            sprite_size: PpuSpriteSize::NORMAL,
            sprite_enable: false,
            background_enable: false,
        }
    }

    pub open spec fn spec_read(self) -> u8 {
        (flag(self.lcd_enable, 0x80) + flag(self.window_tile_address, 0x40) + flag(
            self.window_enable,
            0x20,
        ) + flag(self.background_pattern_address, 0x10) + flag(self.background_tile_address, 0x08)
            + flag(self.sprite_size == PpuSpriteSize::TALL, 0x04) + flag(self.sprite_enable, 0x02)
            + flag(self.background_enable, 0x01)) as u8
    }

    pub open spec fn spec_write(value: u8) -> PpuControl {
        PpuControl {
            lcd_enable: value & 0x80 != 0,
            window_tile_address: value & 0x40 != 0,
            window_enable: value & 0x20 != 0,
            background_pattern_address: value & 0x10 != 0,
            background_tile_address: value & 0x08 != 0,
            sprite_size: if value & 0x04 != 0 {
                PpuSpriteSize::TALL
            } else {
                PpuSpriteSize::NORMAL
            },
            sprite_enable: value & 0x02 != 0,
            background_enable: value & 0x01 != 0,
        }
    }

    /// Height of a sprite in scanlines.
    pub open spec fn spec_sprite_height(self) -> int {
        if self.sprite_size == PpuSpriteSize::TALL {
            16
        } else {
            8
        }
    }

    pub fn new() -> (r: PpuControl)
        ensures
            r == PpuControl::spec_new(),
    {
        PpuControl {
            lcd_enable: false,
            window_tile_address: false,
            window_enable: false,
            background_pattern_address: false,
            background_tile_address: false,
            sprite_size: PpuSpriteSize::NORMAL,
            sprite_enable: false,
            background_enable: false,
        }
    }

    pub fn read(&self) -> (r: u8)
        ensures
            r == self.spec_read(),
    {
        let b7: u8 = if self.lcd_enable { 0x80 } else { 0 };
        let b6: u8 = if self.window_tile_address { 0x40 } else { 0 };
        let b5: u8 = if self.window_enable { 0x20 } else { 0 };
        let b4: u8 = if self.background_pattern_address { 0x10 } else { 0 };
        let b3: u8 = if self.background_tile_address { 0x08 } else { 0 };
        let b2: u8 = match self.sprite_size {
            PpuSpriteSize::TALL => 0x04,
            PpuSpriteSize::NORMAL => 0,
        };
        let b1: u8 = if self.sprite_enable { 0x02 } else { 0 };
        let b0: u8 = if self.background_enable { 0x01 } else { 0 };
        b7 + b6 + b5 + b4 + b3 + b2 + b1 + b0
    }

    pub fn write(&mut self, value: u8)
        ensures
            *final(self) == PpuControl::spec_write(value),
            final(self).spec_read() == value,
    {
        proof {
            PpuControl::lemma_read_after_write(value);
        }
        *self = PpuControl {
            lcd_enable: (value & 0x80) != 0,
            window_tile_address: (value & 0x40) != 0,
            window_enable: (value & 0x20) != 0,
            background_pattern_address: (value & 0x10) != 0,
            background_tile_address: (value & 0x08) != 0,
            sprite_size: if (value & 0x04) != 0 {
                PpuSpriteSize::TALL
            } else {
                PpuSpriteSize::NORMAL
            },
            sprite_enable: (value & 0x02) != 0,
            background_enable: (value & 0x01) != 0,
        };
    }

    /// The control byte reads back as it was written.
    pub proof fn lemma_read_after_write(value: u8)
        ensures
            PpuControl::spec_write(value).spec_read() == value,
    {
        lemma_byte_bits(value);
    }
}

/// The STAT byte without its mode bits: four interrupt-source enables and
/// the LY=LYC coincidence bit.
#[derive(Clone, Copy, Debug, PartialEq, Eq, Structural)]
pub struct PpuStatus {
    pub coincidence_interrupt_enable: bool,
    pub oam_interrupt_enable: bool,
    pub vblank_interrupt_enable: bool,
    pub hblank_interrupt_enable: bool,
    pub coincidence: bool,
}

impl PpuStatus {
    pub open spec fn spec_new() -> PpuStatus {
        PpuStatus {
            coincidence_interrupt_enable: false,
            oam_interrupt_enable: false,
            vblank_interrupt_enable: false,
            hblank_interrupt_enable: false,
            coincidence: false,
        }
    }

    pub open spec fn spec_read(self, mode: PpuMode) -> u8 {
        (flag(self.coincidence_interrupt_enable, 0x40) + flag(self.oam_interrupt_enable, 0x20)
            + flag(self.vblank_interrupt_enable, 0x10) + flag(self.hblank_interrupt_enable, 0x08)
            + flag(self.coincidence, 0x04) + mode.spec_code()) as u8
    }

    /// A write sets the four enables; the coincidence bit is read-only.
    pub open spec fn spec_write(self, value: u8) -> PpuStatus {
        PpuStatus {
            coincidence_interrupt_enable: value & 0x40 != 0,
            oam_interrupt_enable: value & 0x20 != 0,
            vblank_interrupt_enable: value & 0x10 != 0,
            hblank_interrupt_enable: value & 0x08 != 0,
            coincidence: self.coincidence,
        }
    }

    pub fn new() -> (r: PpuStatus)
        ensures
            r == PpuStatus::spec_new(),
    {
        PpuStatus {
            coincidence_interrupt_enable: false,
            oam_interrupt_enable: false,
            vblank_interrupt_enable: false,
            hblank_interrupt_enable: false,
            coincidence: false,
        }
    }

    pub fn read(&self, mode: PpuMode) -> (r: u8)
        ensures
            r == self.spec_read(mode),
    {
        let b6: u8 = if self.coincidence_interrupt_enable { 0x40 } else { 0 };
        let b5: u8 = if self.oam_interrupt_enable { 0x20 } else { 0 };
        let b4: u8 = if self.vblank_interrupt_enable { 0x10 } else { 0 };
        let b3: u8 = if self.hblank_interrupt_enable { 0x08 } else { 0 };
        let b2: u8 = if self.coincidence { 0x04 } else { 0 };
        let m: u8 = match mode {
            PpuMode::HBLANK => 0,
            PpuMode::VBLANK => 1,
            PpuMode::OAM => 2,
            PpuMode::VRAM => 3,
        };
        b6 + b5 + b4 + b3 + b2 + m
    }

    pub fn write(&mut self, value: u8)
        ensures
            *final(self) == old(self).spec_write(value),
    {
        self.coincidence_interrupt_enable = (value & 0x40) != 0;
        self.oam_interrupt_enable = (value & 0x20) != 0;
        self.vblank_interrupt_enable = (value & 0x10) != 0;
        self.hblank_interrupt_enable = (value & 0x08) != 0;
    }
}

/// A pixel of the screen: one of four shades, white being 0 and black 3.
#[derive(Clone, Copy, Debug, PartialEq, Eq, Structural)]
pub enum PpuShade {
    WHITE,
    LIGHT,
    DARK,
    BLACK,
}

impl PpuShade {
    /// The shade that the two low bits of a byte name.
    pub open spec fn spec_from_u8(value: u8) -> PpuShade {
        if value % 4 == 0 {
            PpuShade::WHITE
        } else if value % 4 == 1 {
            PpuShade::LIGHT
        } else if value % 4 == 2 {
            PpuShade::DARK
        } else {
            PpuShade::BLACK
        }
    }

    pub open spec fn spec_code(self) -> u8 {
        match self {
            PpuShade::WHITE => 0,
            PpuShade::LIGHT => 1,
            PpuShade::DARK => 2,
            PpuShade::BLACK => 3,
        }
    }

    pub fn from_u8(value: u8) -> (r: PpuShade)
        ensures
            r == PpuShade::spec_from_u8(value),
            r.spec_code() == value % 4,
    {
        match value % 4 {
            0 => PpuShade::WHITE,
            1 => PpuShade::LIGHT,
            2 => PpuShade::DARK,
            _ => PpuShade::BLACK,
        }
    }

    pub fn code(self) -> (r: u8)
        ensures
            r == self.spec_code(),
            PpuShade::spec_from_u8(r) == self,
    {
        match self {
            PpuShade::WHITE => 0,
            PpuShade::LIGHT => 1,
            PpuShade::DARK => 2,
            PpuShade::BLACK => 3,
        }
    }
}

/// A palette register: the shade of each of the four colour indices.
#[derive(Clone, Copy, Debug, PartialEq, Eq, Structural)]
pub struct PpuPalette {
    pub colour3: PpuShade,
    pub colour2: PpuShade,
    pub colour1: PpuShade,
    pub colour0: PpuShade,
}

impl PpuPalette {
    pub open spec fn spec_new() -> PpuPalette {
        PpuPalette {
            colour3: PpuShade::WHITE,
            colour2: PpuShade::WHITE,
            colour1: PpuShade::WHITE,
            colour0: PpuShade::WHITE,
        }
    }

    pub open spec fn spec_read(self) -> u8 {
        (self.colour3.spec_code() * 64 + self.colour2.spec_code() * 16 + self.colour1.spec_code()
            * 4 + self.colour0.spec_code()) as u8
    }

    pub open spec fn spec_write(value: u8) -> PpuPalette {
        PpuPalette {
            colour3: PpuShade::spec_from_u8(value / 64),
            colour2: PpuShade::spec_from_u8(value / 16),
            colour1: PpuShade::spec_from_u8(value / 4),
            colour0: PpuShade::spec_from_u8(value),
        }
    }

    /// The shade of a colour index; only its two low bits count.
    pub open spec fn spec_shade(self, index: u8) -> PpuShade {
        if index % 4 == 0 {
            self.colour0
        } else if index % 4 == 1 {
            self.colour1
        } else if index % 4 == 2 {
            self.colour2
        } else {
            self.colour3
        }
    }

    pub fn new() -> (r: PpuPalette)
        ensures
            r == PpuPalette::spec_new(),
    {
        PpuPalette {
            colour3: PpuShade::WHITE,
            colour2: PpuShade::WHITE,
            colour1: PpuShade::WHITE,
            colour0: PpuShade::WHITE,
        }
    }

    pub fn read(&self) -> (r: u8)
        ensures
            r == self.spec_read(),
    {
        self.colour3.code() * 64 + self.colour2.code() * 16 + self.colour1.code() * 4
            + self.colour0.code()
    }

    pub fn write(&mut self, value: u8)
        ensures
            *final(self) == PpuPalette::spec_write(value),
            final(self).spec_read() == value,
    {
        self.colour3 = PpuShade::from_u8(value / 64);
        self.colour2 = PpuShade::from_u8(value / 16);
        self.colour1 = PpuShade::from_u8(value / 4);
        self.colour0 = PpuShade::from_u8(value);
    }

    pub fn shade(&self, index: u8) -> (r: PpuShade)
        ensures
            r == self.spec_shade(index),
    {
        match index % 4 {
            0 => self.colour0,
            1 => self.colour1,
            2 => self.colour2,
            _ => self.colour3,
        }
    }
}

/// Bit `n` of a bit-plane byte.
pub open spec fn plane_bit(byte: u8, n: u8) -> u8 {
    (byte >> n) % 2
}

/// The 2-bit colour index that bit `n` of the two bit-planes holds: the high
/// plane gives its upper bit.
pub open spec fn colour_index(lo: u8, hi: u8, n: u8) -> u8 {
    (plane_bit(hi, n) * 2 + plane_bit(lo, n)) as u8
}

fn get_colour_index(lo: u8, hi: u8, n: u8) -> (r: u8)
    requires
        n < 8,
    ensures
        r == colour_index(lo, hi, n),
        r < 4,
{
    ((hi >> n) % 2) * 2 + (lo >> n) % 2
}

/// The whole PPU as data.
pub struct PpuView {
    pub controller: Controller,
    /// 160 x 144 shades, row by row.
    pub framebuffer: Seq<PpuShade>,
    pub control: PpuControl,
    pub status: PpuStatus,
    pub scroll_y: u8,
    pub scroll_x: u8,
    pub ly_compare: u8,
    pub window_y: u8,
    pub window_x: u8,
    pub background_palette: PpuPalette,
    pub sprite_palette_0: PpuPalette,
    pub sprite_palette_1: PpuPalette,
    /// 0x8000..0x9800.
    pub tile_ram: Seq<u8>,
    /// 0x9800..0xa000: two 32 x 32 tile maps.
    pub background_ram: Seq<u8>,
    /// 0xfe00..0xfea0: 40 sprites of four bytes.
    pub sprite_oam: Seq<u8>,
    pub mode: PpuMode,
    /// Base clocks spent in the current mode (in the current scanline, for VBLANK).
    pub mode_clocks: u16,
    /// LY.
    pub scanline: u8,
    /// A VBlank interrupt that the bus has not collected yet.
    pub vblank: bool,
    /// A STAT interrupt that the bus has not collected yet.
    pub stat_interrupt: bool,
    /// A finished frame that the host has not collected yet.
    pub frame_ready: bool,
}

/// Whether an address belongs to video memory: tile data, tile maps or OAM.
pub open spec fn is_vram_address(address: u16) -> bool {
    0x8000 <= address < 0xa000 || 0xfe00 <= address < 0xfea0
}

impl PpuView {
    pub open spec fn wf(self) -> bool {
        &&& self.framebuffer.len() == 160 * 144
        &&& self.tile_ram.len() == 0x1800
        &&& self.background_ram.len() == 0x800
        &&& self.sprite_oam.len() == 0xa0
        &&& self.scanline < PPU_VBLANK_END
        &&& (self.mode == PpuMode::VBLANK <==> self.scanline >= PPU_VBLANK_START)
        &&& self.mode_clocks < self.mode.spec_clocks()
    }

    /// The PPU after power-on: OAM scan of scanline 0, memories cleared.
    pub open spec fn init() -> PpuView {
        PpuView {
            controller: Controller::spec_new(),
            framebuffer: Seq::new(160 * 144, |i: int| PpuShade::WHITE),
            control: PpuControl::spec_new(),
            status: PpuStatus::spec_new(),
            scroll_y: 0,
            scroll_x: 0,
            ly_compare: 0,
            window_y: 0,
            window_x: 0,
            background_palette: PpuPalette::spec_new(),
            sprite_palette_0: PpuPalette::spec_new(),
            sprite_palette_1: PpuPalette::spec_new(),
            tile_ram: Seq::new(0x1800, |i: int| 0u8),
            background_ram: Seq::new(0x800, |i: int| 0u8),
            sprite_oam: Seq::new(0xa0, |i: int| 0u8),
            mode: PpuMode::OAM,
            mode_clocks: 0,
            scanline: 0,
            vblank: false,
            stat_interrupt: false,
            frame_ready: false,
        }
    }

    pub open spec fn vram_read(self, address: u16) -> u8 {
        if 0x8000 <= address < 0x9800 {
            self.tile_ram[address - 0x8000]
        } else if 0x9800 <= address < 0xa000 {
            self.background_ram[address - 0x9800]
        } else {
            self.sprite_oam[address - 0xfe00]
        }
    }

    pub open spec fn vram_write(self, address: u16, value: u8) -> PpuView {
        if 0x8000 <= address < 0x9800 {
            PpuView { tile_ram: self.tile_ram.update(address - 0x8000, value), ..self }
        } else if 0x9800 <= address < 0xa000 {
            PpuView { background_ram: self.background_ram.update(address - 0x9800, value), ..self }
        } else {
            PpuView { sprite_oam: self.sprite_oam.update(address - 0xfe00, value), ..self }
        }
    }

    /// What a read of one of the registers at 0xff40..0xff4c returns. LY is
    /// the current scanline; the DMA register does not read back.
    #[verifier::opaque]
    pub open spec fn read_register(self, address: u16) -> u8 {
        if address == 0xff40 {
            self.control.spec_read()
        } else if address == 0xff41 {
            self.status.spec_read(self.mode)
        } else if address == 0xff42 {
            self.scroll_y
        } else if address == 0xff43 {
            self.scroll_x
        } else if address == 0xff44 {
            self.scanline
        } else if address == 0xff45 {
            self.ly_compare
        } else if address == 0xff47 {
            self.background_palette.spec_read()
        } else if address == 0xff48 {
            self.sprite_palette_0.spec_read()
        } else if address == 0xff49 {
            self.sprite_palette_1.spec_read()
        } else if address == 0xff4a {
            self.window_y
        } else if address == 0xff4b {
            self.window_x
        } else {
            0xff
        }
    }

    /// The PPU after a write to one of the registers at 0xff40..0xff4c. LY
    /// is read-only, and the DMA register belongs to the bus.
    #[verifier::opaque]
    pub open spec fn write_register(self, address: u16, value: u8) -> PpuView {
        if address == 0xff40 {
            PpuView { control: PpuControl::spec_write(value), ..self }
        } else if address == 0xff41 {
            PpuView { status: self.status.spec_write(value), ..self }
        } else if address == 0xff42 {
            PpuView { scroll_y: value, ..self }
        } else if address == 0xff43 {
            PpuView { scroll_x: value, ..self }
        } else if address == 0xff45 {
            PpuView { ly_compare: value, ..self }
        } else if address == 0xff47 {
            PpuView { background_palette: PpuPalette::spec_write(value), ..self }
        } else if address == 0xff48 {
            PpuView { sprite_palette_0: PpuPalette::spec_write(value), ..self }
        } else if address == 0xff49 {
            PpuView { sprite_palette_1: PpuPalette::spec_write(value), ..self }
        } else if address == 0xff4a {
            PpuView { window_y: value, ..self }
        } else if address == 0xff4b {
            PpuView { window_x: value, ..self }
        } else {
            self
        }
    }

    /// The PPU once its pending interrupts are collected.
    pub open spec fn without_interrupts(self) -> PpuView {
        PpuView {
            controller: Controller { interrupt: false, ..self.controller },
            stat_interrupt: false,
            vblank: false,
            ..self
        }
    }

    // ----- the renderer -----

    /// The row of the background that the current scanline shows.
    pub open spec fn scrolled_y(self) -> int {
        (self.scanline + self.scroll_y) % 256
    }

    /// The column of the background that screen column `x` shows.
    pub open spec fn scrolled_x(self, x: int) -> int {
        (x + self.scroll_x) % 256
    }

    /// The tile id in the selected tile map at tile column `index` of the
    /// current background row.
    pub open spec fn bg_tile(self, index: int) -> u8 {
        self.background_ram[flag(self.control.background_tile_address, 0x400) + (self.scrolled_y()
            / 8) * 32 + index]
    }

    /// Byte `order` (0 low plane, 1 high plane) of row `row` of a background
    /// tile. In the 0x8800 region the tile id counts as a signed offset from
    /// the middle of the region.
    pub open spec fn bg_pattern(self, tile: u8, row: int, order: int) -> u8 {
        if self.control.background_pattern_address {
            self.tile_ram[tile * 16 + row * 2 + order]
        } else {
            self.tile_ram[0x800 + ((tile + 128) % 256) * 16 + row * 2 + order]
        }
    }

    /// Byte `order` of row `row` of a sprite tile.
    pub open spec fn sprite_pattern(self, tile: u8, row: int, order: int) -> u8 {
        self.tile_ram[tile * 16 + row * 2 + order]
    }

    /// The colour index of the background under screen column `x`: the tile
    /// under the background column `sx` is looked up in the selected tile
    /// map, and of the two bit-planes of its row the column takes bit
    /// `7 - sx % 7`.
    pub open spec fn bg_index(self, x: int) -> u8 {
        let sx = self.scrolled_x(x);
        let tile = self.bg_tile(sx / 8);
        let row = self.scrolled_y() % 8;
        colour_index(
            self.bg_pattern(tile, row, 0),
            self.bg_pattern(tile, row, 1),
            (7 - sx % 7) as u8,
        )
    }

    /// The scanline before any sprite is drawn: the background through its
    /// palette, or what the framebuffer held where the background is off.
    pub open spec fn base_row(self) -> Seq<PpuShade> {
        Seq::new(
            160,
            |x: int|
                if self.control.background_enable {
                    self.background_palette.spec_shade(self.bg_index(x))
                } else {
                    self.framebuffer[self.scanline * 160 + x]
                },
        )
    }

    pub open spec fn sprite_y(self, i: int) -> int {
        self.sprite_oam[4 * i] - 16
    }

    pub open spec fn sprite_x(self, i: int) -> int {
        self.sprite_oam[4 * i + 1] - 8
    }

    pub open spec fn sprite_tile(self, i: int) -> u8 {
        self.sprite_oam[4 * i + 2]
    }

    pub open spec fn sprite_flags(self, i: int) -> u8 {
        self.sprite_oam[4 * i + 3]
    }

    /// Whether a sprite whose top is at screen row `y` crosses the current
    /// scanline.
    pub open spec fn sprite_inrange(self, y: int) -> bool {
        y <= self.scanline < y + self.control.spec_sprite_height()
    }

    /// The row of sprite `i` that the current scanline shows, after the
    /// vertical flip of flag bit 6.
    pub open spec fn sprite_row(self, i: int) -> int {
        let row = self.scanline - self.sprite_y(i);
        if self.sprite_flags(i) & 0x40 != 0 {
            self.control.spec_sprite_height() - 1 - row
        } else {
            row
        }
    }

    /// The colour index of column `j` of sprite `i` on the current scanline,
    /// after the horizontal flip of flag bit 5.
    pub open spec fn sprite_index(self, i: int, j: int) -> u8 {
        let row = self.sprite_row(i);
        let n = if self.sprite_flags(i) & 0x20 != 0 {
            j
        } else {
            7 - j
        };
        colour_index(
            self.sprite_pattern(self.sprite_tile(i), row, 0),
            self.sprite_pattern(self.sprite_tile(i), row, 1),
            n as u8,
        )
    }

    /// What screen column `cx` shows once sprite `i` is drawn over `under`.
    /// Index 0 is transparent; with flag bit 7 the sprite only covers
    /// colour 0 of the background palette; flag bit 4 picks the palette.
    pub open spec fn sprite_pixel(self, i: int, cx: int, under: PpuShade) -> PpuShade {
        let j = cx - self.sprite_x(i);
        let index = self.sprite_index(i, j);
        if self.sprite_inrange(self.sprite_y(i)) && 0 <= j < 8 && index != 0 && (self.sprite_flags(
            i,
        ) & 0x80 == 0 || under == self.background_palette.colour0) {
            if self.sprite_flags(i) & 0x10 != 0 {
                self.sprite_palette_1.spec_shade(index)
            } else {
                self.sprite_palette_0.spec_shade(index)
            }
        } else {
            under
        }
    }

    /// A row once sprite `i` is drawn over it.
    pub open spec fn with_sprite(self, row: Seq<PpuShade>, i: int) -> Seq<PpuShade> {
        Seq::new(160, |cx: int| self.sprite_pixel(i, cx, row[cx]))
    }

    /// A row once the first `n` sprites of OAM are drawn over it, in order.
    pub open spec fn with_sprites(self, row: Seq<PpuShade>, n: nat) -> Seq<PpuShade>
        decreases n,
    {
        if n == 0 {
            row
        } else {
            self.with_sprite(self.with_sprites(row, (n - 1) as nat), n - 1)
        }
    }

    /// The finished current scanline.
    pub open spec fn scanline_row(self) -> Seq<PpuShade> {
        if self.control.sprite_enable {
            self.with_sprites(self.base_row(), 40)
        } else {
            self.base_row()
        }
    }

    /// The PPU with the current scanline written into its framebuffer row.
    #[verifier::opaque]
    pub open spec fn render_scanline(self) -> PpuView {
        PpuView {
            framebuffer: Seq::new(
                160 * 144,
                |k: int|
                    if k / 160 == self.scanline {
                        self.scanline_row()[k % 160]
                    } else {
                        self.framebuffer[k]
                    },
            ),
            ..self
        }
    }

    // ----- the state machine -----

    /// Sets the coincidence bit from LY and LYC, and raises STAT where the
    /// coincidence source is enabled and they agree.
    pub open spec fn with_coincidence(self) -> PpuView {
        let coincidence = self.scanline == self.ly_compare;
        PpuView {
            status: PpuStatus { coincidence, ..self.status },
            stat_interrupt: self.stat_interrupt || (coincidence
                && self.status.coincidence_interrupt_enable),
            ..self
        }
    }

    /// Whether the next base clock ends the current mode.
    pub open spec fn mode_ends(self) -> bool {
        self.mode_clocks + 1 == self.mode.spec_clocks()
    }

    /// Whether the next base clock enters VBlank and so completes a frame.
    pub open spec fn emits_frame(self) -> bool {
        self.mode == PpuMode::HBLANK && self.mode_ends() && self.scanline + 1 == PPU_VBLANK_START
    }

    /// The end of the OAM scan: the transfer of the scanline begins.
    pub open spec fn end_oam(self) -> PpuView {
        PpuView { mode: PpuMode::VRAM, mode_clocks: 0, ..self }
    }

    /// The end of the transfer: HBlank begins, its STAT source fires, and
    /// the scanline is rendered if the LCD is on.
    pub open spec fn end_vram(self) -> PpuView {
        let hblank = PpuView {
            mode: PpuMode::HBLANK,
            mode_clocks: 0,
            stat_interrupt: self.stat_interrupt || self.status.hblank_interrupt_enable,
            ..self
        };
        if self.control.lcd_enable {
            hblank.render_scanline()
        } else {
            hblank
        }
    }

    /// The end of HBlank: the next scanline begins, with an OAM scan or,
    /// at scanline 144, with VBlank, its interrupt and a finished frame.
    pub open spec fn end_hblank(self) -> PpuView {
        let to_vblank = self.scanline + 1 == PPU_VBLANK_START;
        PpuView {
            mode: if to_vblank {
                PpuMode::VBLANK
            } else {
                PpuMode::OAM
            },
            mode_clocks: 0,
            scanline: (self.scanline + 1) as u8,
            vblank: self.vblank || to_vblank,
            frame_ready: self.frame_ready || to_vblank,
            stat_interrupt: self.stat_interrupt || if to_vblank {
                self.status.vblank_interrupt_enable
            } else {
                self.status.oam_interrupt_enable
            },
            ..self
        }
    }

    /// The end of a scanline of VBlank: the next one begins, or, after
    /// scanline 153, the OAM scan of scanline 0.
    pub open spec fn end_vblank_line(self) -> PpuView {
        let to_oam = self.scanline + 1 == PPU_VBLANK_END;
        PpuView {
            mode: if to_oam {
                PpuMode::OAM
            } else {
                PpuMode::VBLANK
            },
            mode_clocks: 0,
            scanline: if to_oam {
                0
            } else {
                (self.scanline + 1) as u8
            },
            stat_interrupt: self.stat_interrupt || (to_oam && self.status.oam_interrupt_enable),
            ..self
        }
    }

    /// One more base clock within the current mode.
    pub open spec fn counted(self) -> PpuView {
        PpuView { mode_clocks: (self.mode_clocks + 1) as u16, ..self }
    }

    /// One base clock of the mode counter, with the transition that it may
    /// bring.
    #[verifier::opaque]
    pub open spec fn advance(self) -> PpuView {
        if !self.mode_ends() {
            self.counted()
        } else {
            match self.mode {
                PpuMode::OAM => self.end_oam(),
                PpuMode::VRAM => self.end_vram(),
                PpuMode::HBLANK => self.end_hblank(),
                PpuMode::VBLANK => self.end_vblank_line(),
            }
        }
    }

    /// One base clock. The coincidence bit follows LY during HBlank and
    /// VBlank.
    #[verifier::opaque]
    pub open spec fn tick_one(self) -> PpuView {
        if self.mode == PpuMode::HBLANK || self.mode == PpuMode::VBLANK {
            self.advance().with_coincidence()
        } else {
            self.advance()
        }
    }

    /// `cycles` base clocks in a row.
    #[verifier::opaque]
    pub open spec fn tick(self, cycles: nat) -> PpuView
        decreases cycles,
    {
        if cycles == 0 {
            self
        } else {
            self.tick_one().tick((cycles - 1) as nat)
        }
    }

    /// A base clock moves the PPU one step along the frame, which is 70224
    /// base clocks long, and a frame is completed exactly by the step onto
    /// scanline 144.
    pub proof fn lemma_tick_one_position(p: PpuView)
        requires
            p.wf(),
        ensures
            0 <= p.position() < 70224,
            p.tick_one().position() == (p.position() + 1) % 70224,
            p.emits_frame() <==> p.position() + 1 == 144 * 456,
            p.tick_one().frame_ready == (p.frame_ready || p.emits_frame()),
            p.tick_one().vblank == (p.vblank || p.emits_frame()),
    {
        reveal(PpuView::tick_one);
        reveal(PpuView::advance);
        reveal(PpuView::render_scanline);
    }

    /// The frames that `cycles` base clocks complete depend only on where
    /// in the frame they start.
    pub proof fn lemma_frames(p: PpuView, cycles: nat)
        requires
            p.wf(),
        ensures
            p.frames(cycles) == PpuView::frames_between(p.position(), cycles),
        decreases cycles,
    {
        PpuView::lemma_tick_one_position(p);
        if cycles > 0 {
            PpuView::lemma_tick_one_wf(p);
            PpuView::lemma_frames(p.tick_one(), (cycles - 1) as nat);
        }
    }

    /// Any 70224 base clocks in a row complete exactly one frame.
    pub proof fn lemma_one_frame_per_period(p: PpuView)
        requires
            p.wf(),
        ensures
            p.frames(70224) == 1,
    {
        PpuView::lemma_tick_one_position(p);
        PpuView::lemma_frames(p, 70224);
    }

    /// Whether two PPUs hold the same video memory.
    pub open spec fn same_memory(self, other: PpuView) -> bool {
        &&& self.tile_ram == other.tile_ram
        &&& self.background_ram == other.background_ram
        &&& self.sprite_oam == other.sprite_oam
    }

    /// The PPU reads its video memory and never writes it.
    pub proof fn lemma_tick_keeps_memory(p: PpuView, cycles: nat)
        ensures
            p.tick(cycles).same_memory(p),
        decreases cycles,
    {
        reveal_with_fuel(PpuView::tick, 2);
        reveal(PpuView::tick_one);
        reveal(PpuView::advance);
        reveal(PpuView::render_scanline);
        if cycles > 0 {
            PpuView::lemma_tick_keeps_memory(p.tick_one(), (cycles - 1) as nat);
        }
    }

    /// A base clock keeps the PPU well-formed.
    pub proof fn lemma_tick_one_wf(p: PpuView)
        requires
            p.wf(),
        ensures
            p.tick_one().wf(),
    {
        reveal(PpuView::tick_one);
        reveal(PpuView::advance);
        reveal(PpuView::render_scanline);
    }

    /// Base clocks since the start of the frame.
    pub open spec fn position(self) -> int {
        self.scanline * PPU_LINE_CLOCKS + self.mode.spec_offset() + self.mode_clocks
    }

    /// How many of the `cycles` base clocks that follow frame position
    /// `position` are the first clock of VBlank.
    pub open spec fn frames_between(position: int, cycles: nat) -> int {
        (position + cycles - 144 * 456) / 70224 - (position - 144 * 456) / 70224
    }

    /// Frames completed by the next `cycles` base clocks.
    pub open spec fn frames(self, cycles: nat) -> nat
        decreases cycles,
    {
        if cycles == 0 {
            0
        } else {
            flag(self.emits_frame(), 1) as nat + self.tick_one().frames((cycles - 1) as nat)
        }
    }
}

pub struct Ppu {
    controller: Controller,
    framebuffer: Vec<PpuShade>,
    control: PpuControl,
    status: PpuStatus,
    scroll_y: u8,
    scroll_x: u8,
    ly_compare: u8,
    window_y: u8,
    window_x: u8,
    background_palette: PpuPalette,
    sprite_palette_0: PpuPalette,
    sprite_palette_1: PpuPalette,
    tile_ram: Vec<u8>,
    background_ram: Vec<u8>,
    sprite_oam: Vec<u8>,
    mode: PpuMode,
    mode_clocks: u16,
    scanline: u8,
    vblank: bool,
    stat_interrupt: bool,
    frame_ready: bool,
}

impl View for Ppu {
    type V = PpuView;

    closed spec fn view(&self) -> PpuView {
        PpuView {
            controller: self.controller,
            framebuffer: self.framebuffer@,
            control: self.control,
            status: self.status,
            scroll_y: self.scroll_y,
            scroll_x: self.scroll_x,
            ly_compare: self.ly_compare,
            window_y: self.window_y,
            window_x: self.window_x,
            background_palette: self.background_palette,
            sprite_palette_0: self.sprite_palette_0,
            sprite_palette_1: self.sprite_palette_1,
            tile_ram: self.tile_ram@,
            background_ram: self.background_ram@,
            sprite_oam: self.sprite_oam@,
            mode: self.mode,
            mode_clocks: self.mode_clocks,
            scanline: self.scanline,
            vblank: self.vblank,
            stat_interrupt: self.stat_interrupt,
            frame_ready: self.frame_ready,
        }
    }
}

impl Ppu {
    pub fn new() -> (r: Ppu)
        ensures
            r@ == PpuView::init(),
            r@.wf(),
    {
        let r = Ppu {
            controller: Controller::new(),
            framebuffer: vec![PpuShade::WHITE; PPU_DISPLAY_WIDTH * PPU_DISPLAY_HEIGHT],
            control: PpuControl::new(),
            status: PpuStatus::new(),
            scroll_y: 0,
            scroll_x: 0,
            ly_compare: 0,
            window_y: 0,
            window_x: 0,
            background_palette: PpuPalette::new(),
            sprite_palette_0: PpuPalette::new(),
            sprite_palette_1: PpuPalette::new(),
            tile_ram: vec![0u8; 0x1800],
            background_ram: vec![0u8; 0x800],
            sprite_oam: vec![0u8; 0xa0],
            mode: PpuMode::OAM,
            mode_clocks: 0,
            scanline: 0,
            vblank: false,
            stat_interrupt: false,
            frame_ready: false,
        };
        assert(r@.framebuffer =~= PpuView::init().framebuffer);
        assert(r@.tile_ram =~= PpuView::init().tile_ram);
        assert(r@.background_ram =~= PpuView::init().background_ram);
        assert(r@.sprite_oam =~= PpuView::init().sprite_oam);
        r
    }

    /// A CPU read of video memory. Access is not gated by the mode.
    pub fn vram_read(&self, address: u16) -> (r: u8)
        requires
            self@.wf(),
            is_vram_address(address),
        ensures
            r == self@.vram_read(address),
    {
        let address = address as usize;
        if address >= 0x8000 && address < 0x9800 {
            self.tile_ram[address - 0x8000]
        } else if address >= 0x9800 && address < 0xa000 {
            self.background_ram[address - 0x9800]
        } else {
            self.sprite_oam[address - 0xfe00]
        }
    }

    /// A CPU write to video memory. Access is not gated by the mode.
    pub fn vram_write(&mut self, address: u16, value: u8)
        requires
            old(self)@.wf(),
            is_vram_address(address),
        ensures
            final(self)@ == old(self)@.vram_write(address, value),
            final(self)@.wf(),
    {
        let ghost goal = old(self)@.vram_write(address, value);
        let address = address as usize;
        if address >= 0x8000 && address < 0x9800 {
            self.tile_ram[address - 0x8000] = value;
            assert(self@ == goal);
        } else if address >= 0x9800 && address < 0xa000 {
            self.background_ram[address - 0x9800] = value;
            assert(self@ == goal);
        } else {
            self.sprite_oam[address - 0xfe00] = value;
            assert(self@ == goal);
        }
    }

    /// Advances the PPU by `cycles` base clocks.
    pub fn tick(&mut self, cycles: usize)
        requires
            old(self)@.wf(),
        ensures
            final(self)@ == old(self)@.tick(cycles as nat),
            final(self)@.wf(),
    {
        proof {
            reveal_with_fuel(PpuView::tick, 2);
        }
        let mut i: usize = 0;
        while i < cycles
            invariant
                i <= cycles,
                self@.wf(),
                self@.tick((cycles - i) as nat) == old(self)@.tick(cycles as nat),
            decreases cycles - i,
        {
            proof {
                reveal_with_fuel(PpuView::tick, 2);
            }
            self.tick_one();
            i += 1;
        }
    }

    fn update_coincidence(&mut self)
        ensures
            final(self)@ == old(self)@.with_coincidence(),
    {
        let coincidence = self.scanline == self.ly_compare;
        self.status.coincidence = coincidence;
        self.stat_interrupt = self.stat_interrupt || (coincidence
            && self.status.coincidence_interrupt_enable);
    }

    fn end_oam(&mut self)
        ensures
            final(self)@ == old(self)@.end_oam(),
    {
        self.mode_clocks = 0;
        self.mode = PpuMode::VRAM;
    }

    fn end_vram(&mut self)
        requires
            old(self)@.wf(),
            old(self)@.mode == PpuMode::VRAM,
        ensures
            final(self)@ == old(self)@.end_vram(),
    {
        self.mode_clocks = 0;
        self.mode = PpuMode::HBLANK;
        self.stat_interrupt = self.stat_interrupt || self.status.hblank_interrupt_enable;
        if self.control.lcd_enable {
            self.render_scanline();
        }
    }

    fn end_hblank(&mut self)
        requires
            old(self)@.wf(),
            old(self)@.mode == PpuMode::HBLANK,
        ensures
            final(self)@ == old(self)@.end_hblank(),
    {
        let to_vblank = self.scanline + 1 == PPU_VBLANK_START;
        let raise = if to_vblank {
            self.status.vblank_interrupt_enable
        } else {
            self.status.oam_interrupt_enable
        };
        self.mode = if to_vblank {
            PpuMode::VBLANK
        } else {
            PpuMode::OAM
        };
        self.mode_clocks = 0;
        self.scanline += 1;
        self.vblank = self.vblank || to_vblank;
        self.frame_ready = self.frame_ready || to_vblank;
        self.stat_interrupt = self.stat_interrupt || raise;
    }

    fn end_vblank_line(&mut self)
        requires
            old(self)@.wf(),
            old(self)@.mode == PpuMode::VBLANK,
        ensures
            final(self)@ == old(self)@.end_vblank_line(),
    {
        let to_oam = self.scanline + 1 == PPU_VBLANK_END;
        self.mode = if to_oam {
            PpuMode::OAM
        } else {
            PpuMode::VBLANK
        };
        self.mode_clocks = 0;
        self.scanline = if to_oam {
            0
        } else {
            self.scanline + 1
        };
        self.stat_interrupt = self.stat_interrupt || (to_oam && self.status.oam_interrupt_enable);
    }

    fn advance(&mut self)
        requires
            old(self)@.wf(),
        ensures
            final(self)@ == old(self)@.advance(),
    {
        proof {
            reveal(PpuView::advance);
        }
        let ends = self.mode_clocks + 1 == match self.mode {
            PpuMode::OAM => PPU_OAM_CLOCKS,
            PpuMode::VRAM => PPU_VRAM_CLOCKS,
            PpuMode::HBLANK => PPU_HBLANK_CLOCKS,
            PpuMode::VBLANK => PPU_VBLANK_CLOCKS,
        };
        if !ends {
            self.mode_clocks += 1;
            return ;
        }
        match self.mode {
            PpuMode::OAM => self.end_oam(),
            PpuMode::VRAM => self.end_vram(),
            PpuMode::HBLANK => self.end_hblank(),
            PpuMode::VBLANK => self.end_vblank_line(),
        }
    }

    fn tick_one(&mut self)
        requires
            old(self)@.wf(),
        ensures
            final(self)@ == old(self)@.tick_one(),
            final(self)@.wf(),
    {
        proof {
            reveal(PpuView::tick_one);
            PpuView::lemma_tick_one_wf(old(self)@);
        }
        let coincides = match self.mode {
            PpuMode::HBLANK | PpuMode::VBLANK => true,
            _ => false,
        };
        self.advance();
        if coincides {
            self.update_coincidence();
        }
    }

    fn get_scrolled_y(&self) -> (r: usize)
        ensures
            r == self@.scrolled_y(),
    {
        (self.scanline as usize + self.scroll_y as usize) % 256
    }

    fn get_scrolled_x(&self, x: usize) -> (r: usize)
        requires
            x < 160,
        ensures
            r == self@.scrolled_x(x as int),
    {
        (x + self.scroll_x as usize) % 256
    }

    fn get_bg_tile(&self, index: usize) -> (r: u8)
        requires
            self@.wf(),
            index < 32,
        ensures
            r == self@.bg_tile(index as int),
    {
        let mut tile_base: usize = if self.control.background_tile_address {
            0x400
        } else {
            0
        };
        tile_base += (self.get_scrolled_y() / 8) * 32;
        self.background_ram[tile_base + index]
    }

    fn get_bg_pattern(&self, tile: u8, row: usize, order: usize) -> (r: u8)
        requires
            self@.wf(),
            row < 8,
            order < 2,
        ensures
            r == self@.bg_pattern(tile, row as int, order as int),
    {
        let pattern_base: usize;
        let pattern_tile: usize;
        if self.control.background_pattern_address {
            pattern_base = 0;
            pattern_tile = tile as usize;
        } else {
            pattern_base = 0x800;
            pattern_tile = (tile as usize + 128) % 256;
        }
        self.tile_ram[pattern_base + pattern_tile * 16 + row * 2 + order]
    }

    fn get_sprite_pattern(&self, tile: u8, row: usize, order: usize) -> (r: u8)
        requires
            self@.wf(),
            row < 16,
            order < 2,
        ensures
            r == self@.sprite_pattern(tile, row as int, order as int),
    {
        self.tile_ram[tile as usize * 16 + row * 2 + order]
    }

    fn sprite_inrange(&self, y: i32) -> (r: bool)
        requires
            -16 <= y < 256,
        ensures
            r == self@.sprite_inrange(y as int),
    {
        let height: i32 = match self.control.sprite_size {
            PpuSpriteSize::TALL => 16,
            PpuSpriteSize::NORMAL => 8,
        };
        y <= self.scanline as i32 && (self.scanline as i32) < y + height
    }

    /// The shade of the background under screen column `x`.
    fn get_bg_shade(&self, x: usize) -> (r: PpuShade)
        requires
            self@.wf(),
            x < 160,
        ensures
            r == self@.background_palette.spec_shade(self@.bg_index(x as int)),
    {
        let sx = self.get_scrolled_x(x);
        let tile_number = self.get_bg_tile(sx / 8);
        let tile_col = sx % 7;
        let tile_row = self.get_scrolled_y() % 8;
        let tile_lo = self.get_bg_pattern(tile_number, tile_row, 0);
        let tile_hi = self.get_bg_pattern(tile_number, tile_row, 1);
        let index = get_colour_index(tile_lo, tile_hi, (7 - tile_col) as u8);
        self.background_palette.shade(index)
    }

    /// Draws sprite `i` over a scanline.
    fn draw_sprite(&self, row: &mut Vec<PpuShade>, i: usize)
        requires
            self@.wf(),
            self@.scanline < 144,
            i < 40,
            old(row)@.len() == 160,
        ensures
            final(row)@ == self@.with_sprite(old(row)@, i as int),
    {
        let y: i32 = self.sprite_oam[i * 4] as i32 - 16;
        let x: i32 = self.sprite_oam[i * 4 + 1] as i32 - 8;
        let sprite_tile = self.sprite_oam[i * 4 + 2];
        let options = self.sprite_oam[i * 4 + 3];
        if !self.sprite_inrange(y) {
            assert(row@ =~= self@.with_sprite(old(row)@, i as int));
            return ;
        }
        let palette = if (options & 0x10) != 0 {
            self.sprite_palette_1
        } else {
            self.sprite_palette_0
        };
        let height: i32 = match self.control.sprite_size {
            PpuSpriteSize::TALL => 16,
            PpuSpriteSize::NORMAL => 8,
        };
        let mut sprite_row: i32 = self.scanline as i32 - y;
        if (options & 0x40) != 0 {
            sprite_row = height - 1 - sprite_row;
        }
        let sprite_lo = self.get_sprite_pattern(sprite_tile, sprite_row as usize, 0);
        let sprite_hi = self.get_sprite_pattern(sprite_tile, sprite_row as usize, 1);
        let mut j: i32 = 0;
        while j < 8
            invariant
                0 <= j <= 8,
                self@.wf(),
                i < 40,
                -8 <= x < 248,
                x == self@.sprite_x(i as int),
                self@.sprite_inrange(self@.sprite_y(i as int)),
                options == self@.sprite_flags(i as int),
                sprite_lo == self@.sprite_pattern(
                    self@.sprite_tile(i as int),
                    self@.sprite_row(i as int),
                    0,
                ),
                sprite_hi == self@.sprite_pattern(
                    self@.sprite_tile(i as int),
                    self@.sprite_row(i as int),
                    1,
                ),
                palette == (if options & 0x10 != 0 {
                    self@.sprite_palette_1
                } else {
                    self@.sprite_palette_0
                }),
                row@.len() == 160,
                forall|cx: int|
                    0 <= cx < 160 ==> row@[cx] == (if cx < x + j {
                        self@.sprite_pixel(i as int, cx, old(row)@[cx])
                    } else {
                        old(row)@[cx]
                    }),
            decreases 8 - j,
        {
            let cx = x + j;
            if cx >= 0 && cx < 160 {
                let n: i32 = if (options & 0x20) != 0 {
                    j
                } else {
                    7 - j
                };
                let index = get_colour_index(sprite_lo, sprite_hi, n as u8);
                let under = row[cx as usize];
                let shows = (options & 0x80) == 0 || under == self.background_palette.colour0;
                if index != 0 && shows {
                    row[cx as usize] = palette.shade(index);
                }
            }
            j += 1;
        }
        assert(row@ =~= self@.with_sprite(old(row)@, i as int));
    }

    /// Renders the current scanline into its framebuffer row.
    fn render_scanline(&mut self)
        requires
            old(self)@.wf(),
            old(self)@.scanline < 144,
        ensures
            final(self)@ == old(self)@.render_scanline(),
            final(self)@.wf(),
    {
        proof {
            reveal(PpuView::render_scanline);
        }
        let ghost before = self@;
        let base = self.scanline as usize * 160;
        let mut row: Vec<PpuShade> = Vec::new();
        let mut x: usize = 0;
        while x < 160
            invariant
                x <= 160,
                self@ == before,
                before.wf(),
                before.scanline < 144,
                base == before.scanline * 160,
                row@.len() == x,
                forall|k: int| 0 <= k < x ==> row@[k] == before.base_row()[k],
            decreases 160 - x,
        {
            let shade = if self.control.background_enable {
                self.get_bg_shade(x)
            } else {
                self.framebuffer[base + x]
            };
            row.push(shade);
            x += 1;
        }
        assert(row@ =~= before.base_row());
        if self.control.sprite_enable {
            let mut i: usize = 0;
            while i < 40
                invariant
                    i <= 40,
                    self@ == before,
                    before.wf(),
                    before.scanline < 144,
                    row@.len() == 160,
                    row@ == before.with_sprites(before.base_row(), i as nat),
                decreases 40 - i,
            {
                self.draw_sprite(&mut row, i);
                i += 1;
            }
        }
        assert(row@ == before.scanline_row());
        let mut x: usize = 0;
        while x < 160
            invariant
                x <= 160,
                before.wf(),
                before.scanline < 144,
                base == before.scanline * 160,
                row@.len() == 160,
                self@.framebuffer.len() == 160 * 144,
                self@ == (PpuView { framebuffer: self@.framebuffer, ..before }),
                forall|k: int|
                    0 <= k < 160 * 144 ==> self@.framebuffer[k] == (if base <= k < base + x {
                        row@[k - base]
                    } else {
                        before.framebuffer[k]
                    }),
            decreases 160 - x,
        {
            self.framebuffer[base + x] = row[x];
            x += 1;
        }
        assert(self@.framebuffer =~= before.render_scanline().framebuffer);
    }

    /// The joypad, which the host feeds with key events.
    pub fn controller(&mut self) -> (r: &mut Controller)
        ensures
            *r == old(self)@.controller,
            final(self)@ == (PpuView { controller: *final(r), ..old(self)@ }),
    {
        &mut self.controller
    }

    /// Hands the pending VBlank interrupt to the caller and clears it.
    pub fn get_vblank_status(&mut self) -> (r: bool)
        ensures
            r == old(self)@.vblank,
            final(self)@ == (PpuView { vblank: false, ..old(self)@ }),
            old(self)@.wf() ==> final(self)@.wf(),
    {
        if self.vblank {
            self.vblank = false;
            return true;
        }
        false
    }

    /// Hands the pending STAT interrupt to the caller and clears it.
    pub fn get_lcdc_status(&mut self) -> (r: bool)
        ensures
            r == old(self)@.stat_interrupt,
            final(self)@ == (PpuView { stat_interrupt: false, ..old(self)@ }),
            old(self)@.wf() ==> final(self)@.wf(),
    {
        if self.stat_interrupt {
            self.stat_interrupt = false;
            return true;
        }
        false
    }

    /// Hands the pending joypad, STAT and VBlank interrupts to the caller, in
    /// this order, and clears them.
    pub fn take_interrupts(&mut self) -> (r: (bool, bool, bool))
        ensures
            r == (old(self)@.controller.interrupt, old(self)@.stat_interrupt, old(self)@.vblank),
            final(self)@ == old(self)@.without_interrupts(),
            old(self)@.wf() ==> final(self)@.wf(),
    {
        let joypad = self.controller.get_interrupt_status();
        let lcd_stat = self.stat_interrupt;
        let vblank = self.vblank;
        self.stat_interrupt = false;
        self.vblank = false;
        (joypad, lcd_stat, vblank)
    }

    /// Whether a frame was completed since the host last collected one.
    pub fn frame_ready(&self) -> (r: bool)
        ensures
            r == self@.frame_ready,
    {
        self.frame_ready
    }

    /// The framebuffer, for the host to show; the frame counts as collected.
    pub fn take_frame(&mut self) -> (r: &Vec<PpuShade>)
        ensures
            r@ == old(self)@.framebuffer,
            final(self)@ == (PpuView { frame_ready: false, ..old(self)@ }),
    {
        self.frame_ready = false;
        &self.framebuffer
    }

    pub fn controller_read(&self) -> (r: u8)
        ensures
            r == self@.controller.spec_read(),
    {
        self.controller.read()
    }

    pub fn controller_write(&mut self, value: u8)
        ensures
            final(self)@ == (PpuView {
                controller: old(self)@.controller.spec_write(value),
                ..old(self)@
            }),
            old(self)@.wf() ==> final(self)@.wf(),
    {
        self.controller.write(value);
    }

    pub fn stat_read(&self) -> (r: u8)
        ensures
            r == self@.status.spec_read(self@.mode),
    {
        self.status.read(self.mode)
    }

    pub fn stat_write(&mut self, value: u8)
        ensures
            final(self)@ == (PpuView { status: old(self)@.status.spec_write(value), ..old(self)@ }),
            old(self)@.wf() ==> final(self)@.wf(),
    {
        self.status.write(value);
    }

    pub fn lcdc_read(&self) -> (r: u8)
        ensures
            r == self@.control.spec_read(),
    {
        self.control.read()
    }

    pub fn lcdc_write(&mut self, value: u8)
        ensures
            final(self)@ == (PpuView { control: PpuControl::spec_write(value), ..old(self)@ }),
            old(self)@.wf() ==> final(self)@.wf(),
    {
        self.control.write(value);
    }

    pub fn scy_read(&self) -> (r: u8)
        ensures
            r == self@.scroll_y,
    {
        self.scroll_y
    }

    pub fn scy_write(&mut self, value: u8)
        ensures
            final(self)@ == (PpuView { scroll_y: value, ..old(self)@ }),
            old(self)@.wf() ==> final(self)@.wf(),
    {
        self.scroll_y = value;
    }

    pub fn scx_read(&self) -> (r: u8)
        ensures
            r == self@.scroll_x,
    {
        self.scroll_x
    }

    pub fn scx_write(&mut self, value: u8)
        ensures
            final(self)@ == (PpuView { scroll_x: value, ..old(self)@ }),
            old(self)@.wf() ==> final(self)@.wf(),
    {
        self.scroll_x = value;
    }

    /// LY is read-only.
    pub fn ly_read(&self) -> (r: u8)
        ensures
            r == self@.scanline,
    {
        self.scanline
    }

    pub fn lyc_read(&self) -> (r: u8)
        ensures
            r == self@.ly_compare,
    {
        self.ly_compare
    }

    pub fn lyc_write(&mut self, value: u8)
        ensures
            final(self)@ == (PpuView { ly_compare: value, ..old(self)@ }),
            old(self)@.wf() ==> final(self)@.wf(),
    {
        self.ly_compare = value;
    }

    pub fn wy_read(&self) -> (r: u8)
        ensures
            r == self@.window_y,
    {
        self.window_y
    }

    pub fn wy_write(&mut self, value: u8)
        ensures
            final(self)@ == (PpuView { window_y: value, ..old(self)@ }),
            old(self)@.wf() ==> final(self)@.wf(),
    {
        self.window_y = value;
    }

    pub fn wx_read(&self) -> (r: u8)
        ensures
            r == self@.window_x,
    {
        self.window_x
    }

    pub fn wx_write(&mut self, value: u8)
        ensures
            final(self)@ == (PpuView { window_x: value, ..old(self)@ }),
            old(self)@.wf() ==> final(self)@.wf(),
    {
        self.window_x = value;
    }

    pub fn bgp_read(&self) -> (r: u8)
        ensures
            r == self@.background_palette.spec_read(),
    {
        self.background_palette.read()
    }

    pub fn obp1_read(&self) -> (r: u8)
        ensures
            r == self@.sprite_palette_0.spec_read(),
    {
        self.sprite_palette_0.read()
    }

    pub fn obp2_read(&self) -> (r: u8)
        ensures
            r == self@.sprite_palette_1.spec_read(),
    {
        self.sprite_palette_1.read()
    }

    pub fn bgp_write(&mut self, value: u8)
        ensures
            final(self)@ == (PpuView {
                background_palette: PpuPalette::spec_write(value),
                ..old(self)@
            }),
            old(self)@.wf() ==> final(self)@.wf(),
    {
        self.background_palette.write(value);
    }

    pub fn obp1_write(&mut self, value: u8)
        ensures
            final(self)@ == (PpuView {
                sprite_palette_0: PpuPalette::spec_write(value),
                ..old(self)@
            }),
            old(self)@.wf() ==> final(self)@.wf(),
    {
        self.sprite_palette_0.write(value);
    }

    pub fn obp2_write(&mut self, value: u8)
        ensures
            final(self)@ == (PpuView {
                sprite_palette_1: PpuPalette::spec_write(value),
                ..old(self)@
            }),
            old(self)@.wf() ==> final(self)@.wf(),
    {
        self.sprite_palette_1.write(value);
    }

    /// A read of any register at 0xff40..0xff4c.
    pub fn read_register(&self, address: u16) -> (r: u8)
        ensures
            r == self@.read_register(address),
    {
        proof {
            reveal(PpuView::read_register);
        }
        match address {
            0xff40 => self.lcdc_read(),
            0xff41 => self.stat_read(),
            0xff42 => self.scy_read(),
            0xff43 => self.scx_read(),
            0xff44 => self.ly_read(),
            0xff45 => self.lyc_read(),
            0xff47 => self.bgp_read(),
            0xff48 => self.obp1_read(),
            0xff49 => self.obp2_read(),
            0xff4a => self.wy_read(),
            0xff4b => self.wx_read(),
            _ => 0xff,
        }
    }

    /// A write to any register at 0xff40..0xff4c.
    pub fn write_register(&mut self, address: u16, value: u8)
        ensures
            final(self)@ == old(self)@.write_register(address, value),
            old(self)@.wf() ==> final(self)@.wf(),
    {
        proof {
            reveal(PpuView::write_register);
        }
        match address {
            0xff40 => self.lcdc_write(value),
            0xff41 => self.stat_write(value),
            0xff42 => self.scy_write(value),
            0xff43 => self.scx_write(value),
            0xff45 => self.lyc_write(value),
            0xff47 => self.bgp_write(value),
            0xff48 => self.obp1_write(value),
            0xff49 => self.obp2_write(value),
            0xff4a => self.wy_write(value),
            0xff4b => self.wx_write(value),
            _ => {},
        }
    }
}

} // verus!
