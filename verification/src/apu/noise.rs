//! The noise channel: a 15-bit linear-feedback shift register clocked by a
//! programmable divider, with a length counter and a volume envelope.

use vstd::prelude::*;
use crate::bits::flag;

verus! {

#[derive(Clone, Copy, Debug, PartialEq, Eq, Structural)]
pub struct ApuNoise {
    pub lfsr: u16,
    /// Base clocks until the register shifts.
    pub lfsr_timer: u32,
    pub length: u8,
    /// The envelope's initial volume.
    pub envelope_volume: u8,
    /// The envelope's direction: `true` is up.
    pub envelope_negate: bool,
    /// The envelope's period.
    pub envelope_frequency: u8,
    /// Envelope ticks until the volume steps.
    pub envelope_period: u8,
    pub volume: u8,
    pub clock_shift: u8,
    /// `true` selects the 7-bit feedback.
    pub lfsr_width: bool,
    /// The 3-bit divisor code.
    pub divisor: u8,
    /// The length-enable flag.
    pub counter: bool,
    pub enabled: bool,
}

impl ApuNoise {
    pub open spec fn wf(self) -> bool {
        &&& self.length <= 64
        &&& self.envelope_volume <= 15
        &&& self.envelope_frequency <= 7
        &&& self.envelope_period <= 7
        &&& self.volume <= 15
        &&& self.clock_shift <= 15
        &&& self.divisor <= 7
    }

    pub open spec fn spec_new() -> ApuNoise {
        ApuNoise {
            lfsr: 0,
            lfsr_timer: 0,
            length: 0,
            envelope_volume: 0,
            envelope_negate: false,
            envelope_frequency: 0,
            envelope_period: 0,
            volume: 0,
            clock_shift: 0,
            lfsr_width: false,
            divisor: 0,
            counter: false,
            enabled: false,
        }
    }

    /// Power-off: every register but the length counter is cleared.
    pub open spec fn spec_reset(self) -> ApuNoise {
        ApuNoise { length: self.length, ..ApuNoise::spec_new() }
    }

    /// The channel's DAC is on while the envelope starts above zero or
    /// counts up.
    pub open spec fn dac_on(self) -> bool {
        self.envelope_volume != 0 || self.envelope_negate
    }

    /// The divisor that a code stands for: 8 for code 0, else 16 times the
    /// code.
    pub open spec fn divisor_of(code: u8) -> u32 {
        if code == 0 {
            8
        } else {
            (code * 16) as u32
        }
    }

    /// The value that the shift timer reloads.
    pub open spec fn reload(self) -> u32 {
        ApuNoise::divisor_of(self.divisor) << self.clock_shift
    }

    /// The feedback bit: the exclusive or of the two low bits.
    pub open spec fn feedback(self) -> u16 {
        (self.lfsr ^ (self.lfsr >> 1)) & 1
    }

    /// The register one shift further: the feedback enters at bit 14 and, in
    /// the 7-bit mode, also replaces bit 6.
    pub open spec fn shifted(self) -> u16 {
        let wide = (self.lfsr >> 1) | (self.feedback() << 14);
        if self.lfsr_width {
            (wide & !0x40u16) | (self.feedback() << 6)
        } else {
            wide
        }
    }

    /// One base clock of the shift timer.
    pub open spec fn spec_tick(self) -> ApuNoise {
        if self.lfsr_timer == 0 {
            ApuNoise { lfsr_timer: self.reload(), lfsr: self.shifted(), ..self }
        } else {
            ApuNoise { lfsr_timer: (self.lfsr_timer - 1) as u32, ..self }
        }
    }

    /// The channel's output: the volume while bit 0 of the register is clear.
    pub open spec fn output(self) -> usize {
        if self.enabled {
            (self.volume * (1 - self.lfsr % 2)) as usize
        } else {
            0
        }
    }

    pub open spec fn spec_tick_length(self) -> ApuNoise {
        if self.counter && self.length != 0 {
            ApuNoise {
                length: (self.length - 1) as u8,
                enabled: self.enabled && self.length != 1,
                ..self
            }
        } else {
            self
        }
    }

    /// The volume one envelope step further: towards 15 when the envelope
    /// counts up, towards 0 when it counts down.
    pub open spec fn stepped_volume(self) -> u8 {
        if self.envelope_negate {
            if self.volume < 15 { (self.volume + 1) as u8 } else { self.volume }
        } else {
            if self.volume > 0 { (self.volume - 1) as u8 } else { self.volume }
        }
    }

    pub open spec fn spec_tick_envelope(self) -> ApuNoise {
        if self.envelope_frequency == 0 {
            self
        } else if self.envelope_period == 0 {
            ApuNoise {
                envelope_period: self.envelope_frequency,
                volume: self.stepped_volume(),
                ..self
            }
        } else {
            ApuNoise { envelope_period: (self.envelope_period - 1) as u8, ..self }
        }
    }

    pub open spec fn spec_write_1(self, value: u8) -> ApuNoise {
        ApuNoise { length: (64 - value % 64) as u8, ..self }
    }

    pub open spec fn spec_read_2(self) -> u8 {
        (self.envelope_volume * 16 + flag(self.envelope_negate, 8) + self.envelope_frequency) as u8
    }

    /// A write of the envelope register; switching the DAC off disables the
    /// channel.
    pub open spec fn spec_write_2(self, value: u8) -> ApuNoise {
        ApuNoise {
            envelope_volume: value / 16,
            envelope_negate: value & 0x8 != 0,
            envelope_frequency: value % 8,
            enabled: self.enabled && (value / 16 != 0 || value & 0x8 != 0),
            ..self
        }
    }

    pub open spec fn spec_read_3(self) -> u8 {
        (self.clock_shift * 16 + flag(self.lfsr_width, 8) + self.divisor) as u8
    }

    /// A write of the polynomial register; the shift timer restarts.
    pub open spec fn spec_write_3(self, value: u8) -> ApuNoise {
        let written = ApuNoise {
            clock_shift: value / 16,
            lfsr_width: value & 0x8 != 0,
            divisor: value % 8,
            ..self
        };
        ApuNoise { lfsr_timer: written.reload(), ..written }
    }

    pub open spec fn spec_read_4(self) -> u8 {
        (0xbf + flag(self.counter, 0x40)) as u8
    }

    /// The state after a trigger: enabled exactly if the DAC is on, an
    /// exhausted length counter refilled, envelope and shift timer reloaded,
    /// the register all ones.
    pub open spec fn spec_trigger(self) -> ApuNoise {
        ApuNoise {
            enabled: self.dac_on(),
            length: if self.length == 0 { 64 } else { self.length },
            envelope_period: self.envelope_frequency,
            volume: self.envelope_volume,
            lfsr_timer: self.reload(),
            lfsr: 0x7fff,
            ..self
        }
    }

    pub open spec fn spec_write_4(self, value: u8) -> ApuNoise {
        let written = ApuNoise { counter: value & 0x40 != 0, ..self };
        if value & 0x80 != 0 {
            written.spec_trigger()
        } else {
            written
        }
    }

    pub fn new() -> (r: ApuNoise)
        ensures
            r == ApuNoise::spec_new(),
            r.wf(),
    {
        ApuNoise {
            lfsr: 0,
            lfsr_timer: 0,
            length: 0,
            envelope_volume: 0,
            envelope_negate: false,
            envelope_frequency: 0,
            envelope_period: 0,
            volume: 0,
            clock_shift: 0,
            lfsr_width: false,
            divisor: 0,
            counter: false,
            enabled: false,
        }
    }

    pub fn reset(&mut self)
        ensures
            *final(self) == old(self).spec_reset(),
            old(self).wf() ==> final(self).wf(),
    {
        let length = self.length;
        *self = ApuNoise::new();
        self.length = length;
    }

    fn get_reload(&self) -> (r: u32)
        requires
            self.wf(),
        ensures
            r == self.reload(),
    {
        let divisor: u32 = if self.divisor == 0 {
            8
        } else {
            self.divisor as u32 * 16
        };
        divisor << self.clock_shift
    }

    fn get_shifted(&self) -> (r: u16)
        ensures
            r == self.shifted(),
    {
        let bit = (self.lfsr ^ (self.lfsr >> 1)) & 1;
        let wide = (self.lfsr >> 1) | (bit << 14);
        if self.lfsr_width {
            (wide & !0x40u16) | (bit << 6)
        } else {
            wide
        }
    }

    /// One base clock; returns the channel's output after it.
    pub fn tick(&mut self) -> (r: usize)
        requires
            old(self).wf(),
        ensures
            *final(self) == old(self).spec_tick(),
            final(self).wf(),
            r == final(self).output(),
            r <= 15,
    {
        if self.lfsr_timer == 0 {
            self.lfsr_timer = self.get_reload();
            self.lfsr = self.get_shifted();
        } else {
            self.lfsr_timer -= 1;
        }
        if !self.enabled {
            return 0;
        }
        let low = self.lfsr % 2;
        let volume = self.volume;
        if low == 0 {
            assert(volume * (1 - low) == volume) by (nonlinear_arith)
                requires
                    low == 0,
            ;
            volume as usize
        } else {
            assert(volume * (1 - low) == 0) by (nonlinear_arith)
                requires
                    low == 1,
            ;
            0
        }
    }

    pub fn tick_length(&mut self)
        requires
            old(self).wf(),
        ensures
            *final(self) == old(self).spec_tick_length(),
            final(self).wf(),
    {
        if self.counter && self.length != 0 {
            self.length -= 1;
            self.enabled = self.enabled && self.length != 0;
        }
    }

    pub fn tick_envelope(&mut self)
        requires
            old(self).wf(),
        ensures
            *final(self) == old(self).spec_tick_envelope(),
            final(self).wf(),
    {
        if self.envelope_frequency != 0 {
            if self.envelope_period == 0 {
                self.envelope_period = self.envelope_frequency;
                if !self.envelope_negate && self.volume > 0 {
                    self.volume -= 1;
                } else if self.envelope_negate && self.volume < 15 {
                    self.volume += 1;
                }
            } else {
                self.envelope_period -= 1;
            }
        }
    }

    pub fn read_1(&self) -> (r: u8)
        ensures
            r == 0xff,
    {
        0xff
    }

    pub fn write_1(&mut self, value: u8)
        ensures
            *final(self) == old(self).spec_write_1(value),
            old(self).wf() ==> final(self).wf(),
    {
        self.length = 64 - value % 64;
    }

    pub fn read_2(&self) -> (r: u8)
        requires
            self.wf(),
        ensures
            r == self.spec_read_2(),
    {
        let negate: u8 = if self.envelope_negate { 8 } else { 0 };
        self.envelope_volume * 16 + negate + self.envelope_frequency
    }

    pub fn write_2(&mut self, value: u8)
        ensures
            *final(self) == old(self).spec_write_2(value),
            old(self).wf() ==> final(self).wf(),
    {
        self.envelope_volume = value / 16;
        self.envelope_negate = (value & 0x8) != 0;
        self.envelope_frequency = value % 8;
        self.enabled = self.enabled && (self.envelope_volume != 0 || self.envelope_negate);
    }

    pub fn read_3(&self) -> (r: u8)
        requires
            self.wf(),
        ensures
            r == self.spec_read_3(),
    {
        let width: u8 = if self.lfsr_width { 8 } else { 0 };
        self.clock_shift * 16 + width + self.divisor
    }

    pub fn write_3(&mut self, value: u8)
        requires
            old(self).wf(),
        ensures
            *final(self) == old(self).spec_write_3(value),
            final(self).wf(),
    {
        self.clock_shift = value / 16;
        self.lfsr_width = (value & 0x8) != 0;
        self.divisor = value % 8;
        self.lfsr_timer = self.get_reload();
    }

    pub fn read_4(&self) -> (r: u8)
        ensures
            r == self.spec_read_4(),
    {
        if self.counter {
            0xff
        } else {
            0xbf
        }
    }

    fn trigger(&mut self)
        requires
            old(self).wf(),
        ensures
            *final(self) == old(self).spec_trigger(),
            final(self).wf(),
    {
        self.enabled = self.envelope_volume != 0 || self.envelope_negate;
        self.length = if self.length == 0 {
            64
        } else {
            self.length
        };
        self.envelope_period = self.envelope_frequency;
        self.volume = self.envelope_volume;
        self.lfsr_timer = self.get_reload();
        self.lfsr = 0x7fff;
    }

    /// A write of the control register. After a trigger the channel is
    /// enabled if and only if its DAC is on.
    pub fn write_4(&mut self, value: u8)
        requires
            old(self).wf(),
        ensures
            *final(self) == old(self).spec_write_4(value),
            final(self).wf(),
            value & 0x80 != 0 ==> final(self).enabled == old(self).dac_on(),
            value & 0x80 == 0 ==> final(self).enabled == old(self).enabled,
    {
        self.counter = (value & 0x40) != 0;
        if (value & 0x80) != 0 {
            self.trigger();
        }
    }

    pub fn enabled(&self) -> (r: bool)
        ensures
            r == self.enabled,
    {
        self.enabled
    }
}

} // verus!
