//! A cycle-scheduled model of an 8-bit handheld console: CPU, memory bus,
//! pixel processing unit, audio processing unit, timer, joypad and cartridge
//! mappers. Every state transition is an executable function whose contract
//! equates the new state with a mathematical model of the hardware.

pub mod apu;
pub mod audio_system;
pub mod bits;
pub mod bus;
pub mod cartridge;
pub mod controller;
pub mod mapper;
pub mod ppu;
pub mod timer;
pub mod video_system;
pub mod z80;

use vstd::prelude::*;
use crate::apu::ApuView;
use crate::audio_system::AudioSystem;
use crate::bus::{Bus, BusView, BOOTROM_SIZE};
use crate::cartridge::{image_error, Cartridge, CartridgeError, CartridgeView};
use crate::mapper::{supported, Mapper, MapperView};
use crate::z80::{CpuError, Z80View, Z80};

verus! {

/// Why a console could not be built.
#[derive(Clone, Copy, Debug, PartialEq, Eq, Structural)]
pub enum GameboyError {
    /// The image is not a cartridge.
    Cartridge(CartridgeError),
    /// The cartridge asks for a mapper that is not modelled.
    UnsupportedMapper,
    /// The bootrom is not 256 bytes long.
    BootromSize,
}

/// The verdict on the parts of a console: `None` where they fit together.
pub open spec fn build_error(rom: Seq<u8>, bootrom: Seq<u8>) -> Option<GameboyError> {
    if bootrom.len() != BOOTROM_SIZE {
        Some(GameboyError::BootromSize)
    } else if image_error(rom) is Some {
        Some(GameboyError::Cartridge(image_error(rom)->Some_0))
    } else if !supported(CartridgeView::init(rom).cartridge_type().mapper) {
        Some(GameboyError::UnsupportedMapper)
    } else {
        None
    }
}

/// The machine that a cartridge image and a bootrom make, before reset.
pub open spec fn power_on(rom: Seq<u8>, bootrom: Seq<u8>) -> Z80View {
    Z80View::init(
        BusView::init(MapperView::init(CartridgeView::init(rom)), ApuView::init(), bootrom),
    )
}

/// The console.
pub struct Gameboy {
    cpu: Z80,
}

impl View for Gameboy {
    type V = Z80View;

    closed spec fn view(&self) -> Z80View {
        self.cpu@
    }
}

impl Gameboy {
    /// Builds a console from a cartridge image and the 256 bytes of the
    /// bootrom.
    pub fn new(rom: Vec<u8>, bootrom: Vec<u8>) -> (r: Result<Gameboy, GameboyError>)
        ensures
            match r {
                Ok(gb) => build_error(rom@, bootrom@) is None && gb@ == power_on(rom@, bootrom@)
                    && gb@.wf(),
                Err(e) => build_error(rom@, bootrom@) == Some(e),
            },
    {
        if bootrom.len() != BOOTROM_SIZE {
            return Err(GameboyError::BootromSize);
        }
        let cartridge = match Cartridge::new(rom) {
            Ok(cartridge) => cartridge,
            Err(e) => {
                return Err(GameboyError::Cartridge(e));
            },
        };
        if !Mapper::supports(&cartridge) {
            return Err(GameboyError::UnsupportedMapper);
        }
        let mapper = Mapper::new(cartridge);
        let bus = Bus::new(mapper, AudioSystem::new(), bootrom);
        Ok(Gameboy { cpu: Z80::new(bus) })
    }

    /// Runs the console for one step of the CPU.
    pub fn run(&mut self) -> (r: Result<(), CpuError>)
        requires
            old(self)@.wf(),
        ensures
            (final(self)@, r) == old(self)@.run(),
            final(self)@.wf(),
    {
        self.cpu.run()
    }

    pub fn reset(&mut self)
        ensures
            final(self)@ == old(self)@.reset(),
            old(self)@.wf() ==> final(self)@.wf(),
    {
        self.cpu.reset();
    }

    /// The CPU, for the host to reach the machine.
    pub fn cpu(&mut self) -> (r: &mut Z80)
        ensures
            r@ == old(self)@,
            final(self)@ == final(r)@,
    {
        &mut self.cpu
    }
}

} // verus!
