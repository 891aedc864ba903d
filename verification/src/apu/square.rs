//! A square channel: an 11-bit frequency timer stepping through an 8-phase
//! duty pattern, with a length counter, a volume envelope and, for the first
//! channel, a frequency sweep.

use vstd::prelude::*;
use crate::bits::{flag, lemma_shr_le};

verus! {

/// The level (0 or 1) of duty pattern `duty` at phase `phase`: the patterns
/// are high for one, two, four and six of their eight phases.
pub open spec fn duty_level(duty: u8, phase: u8) -> u8 {
    if duty == 0 {
        if phase == 1 { 1 } else { 0 }
    } else if duty == 1 {
        if phase == 1 || phase == 2 { 1 } else { 0 }
    } else if duty == 2 {
        if 1 <= phase <= 4 { 1 } else { 0 }
    } else {
        if phase == 0 || 3 <= phase { 1 } else { 0 }
    }
}

fn get_duty_level(duty: u8, phase: u8) -> (r: u8)
    ensures
        r == duty_level(duty, phase),
        r <= 1,
{
    let high = match duty {
        0 => phase == 1,
        1 => phase == 1 || phase == 2,
        2 => 1 <= phase && phase <= 4,
        _ => phase == 0 || 3 <= phase,
    };
    if high {
        1
    } else {
        0
    }
}

#[derive(Clone, Copy, Debug, PartialEq, Eq, Structural)]
pub struct ApuSquare {
    pub enabled: bool,
    /// Base clocks until the phase advances.
    pub period: u16,
    /// The sweep period; a written 0 is kept as 8.
    pub sweep_frequency: u8,
    /// Sweep ticks until the sweep acts.
    pub sweep_period: u8,
    pub sweep_negate: bool,
    pub sweep_shift: u8,
    pub sweep_shadow: u16,
    pub duty: u8,
    pub phase: u8,
    pub length: u8,
    /// The envelope's initial volume.
    pub envelope_volume: u8,
    /// The envelope's direction: `true` is up.
    pub envelope_negate: bool,
    /// The envelope's period.
    pub envelope_frequency: u8,
    /// Envelope ticks until the volume steps.
    pub envelope_period: u8,
    pub frequency: u16,
    /// The length-enable flag.
    pub counter: bool,
    pub volume: u8,
}

impl ApuSquare {
    pub open spec fn wf(self) -> bool {
        &&& self.period <= 8192
        &&& self.sweep_frequency <= 8
        &&& self.sweep_period <= 8
        &&& self.sweep_shift <= 7
        &&& self.sweep_shadow <= 2047
        &&& self.duty <= 3
        &&& self.phase <= 7
        &&& self.length <= 64
        &&& self.envelope_volume <= 15
        &&& self.envelope_frequency <= 7
        &&& self.envelope_period <= 7
        &&& self.frequency <= 2047
        &&& self.volume <= 15
    }

    pub open spec fn spec_new() -> ApuSquare {
        ApuSquare {
            enabled: false,
            period: 0,
            sweep_frequency: 0,
            sweep_period: 0,
            sweep_negate: false,
            sweep_shift: 0,
            sweep_shadow: 0,
            duty: 0,
            phase: 0,
            length: 0,
            envelope_volume: 0,
            envelope_negate: false,
            envelope_frequency: 0,
            envelope_period: 0,
            frequency: 0,
            counter: false,
            volume: 0,
        }
    }

    /// Power-off: every register but the length counter is cleared.
    pub open spec fn spec_reset(self) -> ApuSquare {
        ApuSquare { length: self.length, ..ApuSquare::spec_new() }
    }

    /// The channel's DAC is on while the envelope starts above zero or
    /// counts up.
    pub open spec fn dac_on(self) -> bool {
        self.envelope_volume != 0 || self.envelope_negate
    }

    /// The value that the frequency timer reloads.
    pub open spec fn reload(self) -> u16 {
        ((2048 - self.frequency) * 4) as u16
    }

    /// One base clock of the frequency timer.
    pub open spec fn spec_tick(self) -> ApuSquare {
        if self.period == 0 {
            ApuSquare { period: self.reload(), phase: ((self.phase + 1) % 8) as u8, ..self }
        } else {
            ApuSquare { period: (self.period - 1) as u16, ..self }
        }
    }

    /// The channel's output: the volume while the duty pattern is high.
    pub open spec fn output(self) -> usize {
        if self.enabled {
            (self.volume * duty_level(self.duty, self.phase)) as usize
        } else {
            0
        }
    }

    pub open spec fn spec_tick_length(self) -> ApuSquare {
        if self.counter && self.length != 0 {
            ApuSquare {
                length: (self.length - 1) as u8,
                enabled: self.enabled && self.length != 1,
                ..self
            }
        } else {
            self
        }
    }

    /// The volume one envelope step further: towards 15 when the envelope
    /// counts up, towards 0 when it counts down.
    pub open spec fn stepped_volume(self) -> u8 {
        if self.envelope_negate {
            if self.volume < 15 { (self.volume + 1) as u8 } else { self.volume }
        } else {
            if self.volume > 0 { (self.volume - 1) as u8 } else { self.volume }
        }
    }

    pub open spec fn spec_tick_envelope(self) -> ApuSquare {
        if self.envelope_frequency == 0 {
            self
        } else if self.envelope_period == 0 {
            ApuSquare {
                envelope_period: self.envelope_frequency,
                volume: self.stepped_volume(),
                ..self
            }
        } else {
            ApuSquare { envelope_period: (self.envelope_period - 1) as u8, ..self }
        }
    }

    /// The frequency that the sweep computes from its shadow register.
    pub open spec fn swept(self) -> int {
        if self.sweep_negate {
            self.sweep_shadow - (self.sweep_shadow >> self.sweep_shift)
        } else {
            self.sweep_shadow + (self.sweep_shadow >> self.sweep_shift)
        }
    }

    /// The overflow check: a swept frequency above 2047 disables the channel.
    pub open spec fn spec_sweep_overflow_check(self) -> ApuSquare {
        ApuSquare { enabled: self.enabled && self.swept() <= 2047, ..self }
    }

    /// The sweep acting: an overflow disables the channel; otherwise, with a
    /// shift other than 0, the swept frequency becomes the shadow and the
    /// channel's frequency, and the check is made once more on it.
    pub open spec fn spec_sweep(self) -> ApuSquare {
        if self.swept() > 2047 {
            ApuSquare { enabled: false, ..self }
        } else if self.sweep_shift != 0 {
            (ApuSquare {
                sweep_shadow: self.swept() as u16,
                frequency: self.swept() as u16,
                ..self
            }).spec_sweep_overflow_check()
        } else {
            self
        }
    }

    pub open spec fn spec_tick_sweep(self) -> ApuSquare {
        if !self.enabled || self.sweep_frequency == 0 {
            self
        } else if self.sweep_period == 0 {
            (ApuSquare { sweep_period: self.sweep_frequency, ..self }).spec_sweep()
        } else {
            ApuSquare { sweep_period: (self.sweep_period - 1) as u8, ..self }
        }
    }

    pub open spec fn spec_read_0(self) -> u8 {
        (0x80 + (self.sweep_frequency % 8) * 16 + flag(self.sweep_negate, 8)
            + self.sweep_shift) as u8
    }

    pub open spec fn spec_write_0(self, value: u8) -> ApuSquare {
        ApuSquare {
            sweep_frequency: if (value / 16) % 8 == 0 { 8 } else { (value / 16) % 8 },
            sweep_negate: value & 0x8 != 0,
            sweep_shift: value % 8,
            ..self
        }
    }

    pub open spec fn spec_read_1(self) -> u8 {
        (0x3f + self.duty * 64) as u8
    }

    pub open spec fn spec_write_duty(self, value: u8) -> ApuSquare {
        ApuSquare { duty: value % 4, ..self }
    }

    pub open spec fn spec_write_length(self, value: u8) -> ApuSquare {
        ApuSquare { length: (64 - value % 64) as u8, ..self }
    }

    pub open spec fn spec_read_2(self) -> u8 {
        (self.envelope_volume * 16 + flag(self.envelope_negate, 8) + self.envelope_frequency) as u8
    }

    /// A write of the envelope register; switching the DAC off disables the
    /// channel.
    pub open spec fn spec_write_2(self, value: u8) -> ApuSquare {
        ApuSquare {
            envelope_volume: value / 16,
            envelope_negate: value & 0x8 != 0,
            envelope_frequency: value % 8,
            enabled: self.enabled && (value / 16 != 0 || value & 0x8 != 0),
            ..self
        }
    }

    pub open spec fn spec_write_3(self, value: u8) -> ApuSquare {
        ApuSquare { frequency: ((self.frequency / 256) * 256 + value) as u16, ..self }
    }

    pub open spec fn spec_read_4(self) -> u8 {
        (0xbf + flag(self.counter, 0x40)) as u8
    }

    /// The state after a trigger: enabled exactly if the DAC is on, an
    /// exhausted length counter refilled, envelope, sweep shadow and
    /// frequency timer reloaded.
    pub open spec fn spec_trigger(self) -> ApuSquare {
        ApuSquare {
            enabled: self.dac_on(),
            length: if self.length == 0 { 64 } else { self.length },
            envelope_period: self.envelope_frequency,
            volume: self.envelope_volume,
            sweep_shadow: self.frequency,
            period: self.reload(),
            ..self
        }
    }

    /// A write of the control register: length-enable, the high bits of the
    /// frequency, and, with bit 7, a trigger.
    pub open spec fn spec_write_4(self, value: u8) -> ApuSquare {
        let written = ApuSquare {
            counter: value & 0x40 != 0,
            frequency: (self.frequency % 256 + (value % 8) * 256) as u16,
            ..self
        };
        if value & 0x80 != 0 {
            written.spec_trigger()
        } else {
            written
        }
    }

    /// A sweep tick keeps the channel well-formed: the frequency that it
    /// commits is at most 2047.
    pub proof fn lemma_tick_sweep_wf(s: ApuSquare)
        requires
            s.wf(),
        ensures
            s.spec_tick_sweep().wf(),
    {
        lemma_shr_le(s.sweep_shadow, s.sweep_shift);
    }

    pub fn new() -> (r: ApuSquare)
        ensures
            r == ApuSquare::spec_new(),
            r.wf(),
    {
        ApuSquare {
            enabled: false,
            period: 0,
            sweep_frequency: 0,
            sweep_period: 0,
            sweep_negate: false,
            sweep_shift: 0,
            sweep_shadow: 0,
            duty: 0,
            phase: 0,
            length: 0,
            envelope_volume: 0,
            envelope_negate: false,
            envelope_frequency: 0,
            envelope_period: 0,
            frequency: 0,
            counter: false,
            volume: 0,
        }
    }

    pub fn reset(&mut self)
        ensures
            *final(self) == old(self).spec_reset(),
            old(self).wf() ==> final(self).wf(),
    {
        let length = self.length;
        *self = ApuSquare::new();
        self.length = length;
    }

    /// One base clock; returns the channel's output after it.
    pub fn tick(&mut self) -> (r: usize)
        requires
            old(self).wf(),
        ensures
            *final(self) == old(self).spec_tick(),
            final(self).wf(),
            r == final(self).output(),
            r <= 15,
    {
        if self.period == 0 {
            self.period = (2048 - self.frequency) * 4;
            self.phase = (self.phase + 1) % 8;
        } else {
            self.period -= 1;
        }
        if !self.enabled {
            return 0;
        }
        let level = get_duty_level(self.duty, self.phase);
        let volume = self.volume;
        if level == 1 {
            assert(volume * level == volume) by (nonlinear_arith)
                requires
                    level == 1,
            ;
            volume as usize
        } else {
            assert(volume * level == 0) by (nonlinear_arith)
                requires
                    level == 0,
            ;
            0
        }
    }

    pub fn tick_length(&mut self)
        requires
            old(self).wf(),
        ensures
            *final(self) == old(self).spec_tick_length(),
            final(self).wf(),
    {
        if self.counter && self.length != 0 {
            self.length -= 1;
            self.enabled = self.enabled && self.length != 0;
        }
    }

    pub fn tick_envelope(&mut self)
        requires
            old(self).wf(),
        ensures
            *final(self) == old(self).spec_tick_envelope(),
            final(self).wf(),
    {
        if self.envelope_frequency != 0 {
            if self.envelope_period == 0 {
                self.envelope_period = self.envelope_frequency;
                if !self.envelope_negate && self.volume > 0 {
                    self.volume -= 1;
                } else if self.envelope_negate && self.volume < 15 {
                    self.volume += 1;
                }
            } else {
                self.envelope_period -= 1;
            }
        }
    }

    /// The frequency that the sweep computes from its shadow register.
    fn get_swept(&self) -> (r: u16)
        requires
            self.wf(),
        ensures
            r == self.swept(),
            r <= 4094,
    {
        proof {
            lemma_shr_le(self.sweep_shadow, self.sweep_shift);
        }
        let additive = self.sweep_shadow >> self.sweep_shift;
        if self.sweep_negate {
            self.sweep_shadow - additive
        } else {
            self.sweep_shadow + additive
        }
    }

    /// Disables the channel if the swept frequency is above 2047.
    pub fn sweep_overflow_check(&mut self)
        requires
            old(self).wf(),
        ensures
            *final(self) == old(self).spec_sweep_overflow_check(),
            final(self).wf(),
    {
        let in_range = self.get_swept() <= 2047;
        self.enabled = self.enabled && in_range;
    }

    fn sweep(&mut self)
        requires
            old(self).wf(),
        ensures
            *final(self) == old(self).spec_sweep(),
            final(self).wf(),
    {
        let new_freq = self.get_swept();
        if new_freq > 2047 {
            self.enabled = false;
            return ;
        }
        if self.sweep_shift != 0 {
            self.sweep_shadow = new_freq;
            self.frequency = new_freq;
            self.sweep_overflow_check();
        }
    }

    pub fn tick_sweep(&mut self)
        requires
            old(self).wf(),
        ensures
            *final(self) == old(self).spec_tick_sweep(),
            final(self).wf(),
    {
        if self.enabled && self.sweep_frequency != 0 {
            if self.sweep_period == 0 {
                self.sweep_period = self.sweep_frequency;
                self.sweep();
            } else {
                self.sweep_period -= 1;
            }
        }
    }

    pub fn read_0(&self) -> (r: u8)
        requires
            self.wf(),
        ensures
            r == self.spec_read_0(),
    {
        let negate: u8 = if self.sweep_negate { 8 } else { 0 };
        0x80 + (self.sweep_frequency % 8) * 16 + negate + self.sweep_shift
    }

    pub fn write_0(&mut self, value: u8)
        ensures
            *final(self) == old(self).spec_write_0(value),
            old(self).wf() ==> final(self).wf(),
    {
        let period = (value / 16) % 8;
        self.sweep_frequency = if period == 0 {
            8
        } else {
            period
        };
        self.sweep_negate = (value & 0x8) != 0;
        self.sweep_shift = value % 8;
    }

    pub fn read_1(&self) -> (r: u8)
        requires
            self.wf(),
        ensures
            r == self.spec_read_1(),
    {
        0x3f + self.duty * 64
    }

    pub fn write_duty(&mut self, value: u8)
        ensures
            *final(self) == old(self).spec_write_duty(value),
            old(self).wf() ==> final(self).wf(),
    {
        self.duty = value % 4;
    }

    pub fn write_length(&mut self, value: u8)
        ensures
            *final(self) == old(self).spec_write_length(value),
            old(self).wf() ==> final(self).wf(),
    {
        self.length = 64 - value % 64;
    }

    pub fn read_2(&self) -> (r: u8)
        requires
            self.wf(),
        ensures
            r == self.spec_read_2(),
    {
        let negate: u8 = if self.envelope_negate { 8 } else { 0 };
        self.envelope_volume * 16 + negate + self.envelope_frequency
    }

    pub fn write_2(&mut self, value: u8)
        ensures
            *final(self) == old(self).spec_write_2(value),
            old(self).wf() ==> final(self).wf(),
    {
        self.envelope_volume = value / 16;
        self.envelope_negate = (value & 0x8) != 0;
        self.envelope_frequency = value % 8;
        self.enabled = self.enabled && (self.envelope_volume != 0 || self.envelope_negate);
    }

    pub fn read_3(&self) -> (r: u8)
        ensures
            r == 0xff,
    {
        0xff
    }

    pub fn write_3(&mut self, value: u8)
        requires
            old(self).wf(),
        ensures
            *final(self) == old(self).spec_write_3(value),
            final(self).wf(),
    {
        self.frequency = (self.frequency / 256) * 256 + value as u16;
    }

    pub fn read_4(&self) -> (r: u8)
        ensures
            r == self.spec_read_4(),
    {
        if self.counter {
            0xff
        } else {
            0xbf
        }
    }

    fn trigger(&mut self)
        requires
            old(self).wf(),
        ensures
            *final(self) == old(self).spec_trigger(),
            final(self).wf(),
    {
        self.enabled = self.envelope_volume != 0 || self.envelope_negate;
        self.length = if self.length == 0 {
            64
        } else {
            self.length
        };
        self.envelope_period = self.envelope_frequency;
        self.volume = self.envelope_volume;
        self.sweep_shadow = self.frequency;
        self.period = (2048 - self.frequency) * 4;
    }

    /// A write of the control register. After a trigger the channel is
    /// enabled if and only if its DAC is on.
    pub fn write_4(&mut self, value: u8)
        requires
            old(self).wf(),
        ensures
            *final(self) == old(self).spec_write_4(value),
            final(self).wf(),
            value & 0x80 != 0 ==> final(self).enabled == old(self).dac_on(),
            value & 0x80 == 0 ==> final(self).enabled == old(self).enabled,
    {
        self.counter = (value & 0x40) != 0;
        self.frequency = self.frequency % 256 + (value % 8) as u16 * 256;
        if (value & 0x80) != 0 {
            self.trigger();
        }
    }

    pub fn enabled(&self) -> (r: bool)
        ensures
            r == self.enabled,
    {
        self.enabled
    }
}

} // verus!
