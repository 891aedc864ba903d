//! The wave channel: 32 four-bit samples played from a 16-byte table, with
//! a length counter and a coarse volume shift.

use vstd::prelude::*;
use crate::bits::flag;

verus! {

/// The wave channel as data.
pub struct ApuWaveView {
    /// 16 bytes, two samples each: the high nibble first.
    pub wavetable: Seq<u8>,
    pub index: u8,
    pub sample: u8,
    pub dac_enable: bool,
    pub length: u16,
    /// The volume code: mute, full, half, quarter.
    pub volume: u8,
    pub frequency: u16,
    /// Base clocks until the next sample.
    pub period: u16,
    /// The length-enable flag.
    pub counter: bool,
    pub enabled: bool,
}

/// The wave table after power-on.
pub open spec fn initial_wavetable() -> Seq<u8> {
    seq![
        0x84u8,
        0x40u8,
        0x43u8,
        0xaau8,
        0x2du8,
        0x78u8,
        0x92u8,
        0x3cu8,
        0x60u8,
        0x59u8,
        0x59u8,
        0xb0u8,
        0x34u8,
        0xb8u8,
        0x2eu8,
        0xdau8,
    ]
}

impl ApuWaveView {
    pub open spec fn wf(self) -> bool {
        &&& self.wavetable.len() == 16
        &&& self.index <= 31
        &&& self.sample <= 15
        &&& self.length <= 256
        &&& self.volume <= 3
        &&& self.frequency <= 2047
        &&& self.period <= 4096
    }

    pub open spec fn init() -> ApuWaveView {
        ApuWaveView {
            wavetable: initial_wavetable(),
            index: 0,
            sample: 0,
            dac_enable: false,
            length: 0,
            volume: 0,
            frequency: 0,
            period: 0,
            counter: false,
            enabled: false,
        }
    }

    /// Power-off clears the registers; the table, the length counter and the
    /// playback position stay.
    pub open spec fn reset(self) -> ApuWaveView {
        ApuWaveView {
            dac_enable: false,
            volume: 0,
            frequency: 0,
            counter: false,
            enabled: false,
            ..self
        }
    }

    /// The value that the frequency timer reloads.
    pub open spec fn reload(self) -> u16 {
        ((2048 - self.frequency) * 2) as u16
    }

    /// Sample `index` of the table: the high nibble of its byte at an even
    /// index, the low nibble at an odd one.
    pub open spec fn sample_at(self, index: int) -> u8 {
        if index % 2 != 0 {
            self.wavetable[index / 2] % 16
        } else {
            self.wavetable[index / 2] / 16
        }
    }

    /// One base clock of the frequency timer.
    pub open spec fn tick(self) -> ApuWaveView {
        if self.period == 0 {
            let index = ((self.index + 1) % 32) as u8;
            ApuWaveView {
                period: self.reload(),
                index,
                sample: self.sample_at(index as int),
                ..self
            }
        } else {
            ApuWaveView { period: (self.period - 1) as u16, ..self }
        }
    }

    /// The channel's output: the current sample, muted, whole, halved or
    /// quartered as the volume code says.
    pub open spec fn output(self) -> usize {
        if !self.enabled || !self.dac_enable || self.volume == 0 {
            0
        } else if self.volume == 1 {
            self.sample as usize
        } else if self.volume == 2 {
            (self.sample / 2) as usize
        } else {
            (self.sample / 4) as usize
        }
    }

    pub open spec fn tick_length(self) -> ApuWaveView {
        if self.counter && self.length != 0 {
            ApuWaveView {
                length: (self.length - 1) as u16,
                enabled: self.enabled && self.length != 1,
                ..self
            }
        } else {
            self
        }
    }

    pub open spec fn read_0(self) -> u8 {
        (0x7f + flag(self.dac_enable, 0x80)) as u8
    }

    pub open spec fn write_0(self, value: u8) -> ApuWaveView {
        ApuWaveView { dac_enable: value & 0x80 != 0, ..self }
    }

    pub open spec fn write_1(self, value: u8) -> ApuWaveView {
        ApuWaveView { length: (256 - value) as u16, ..self }
    }

    pub open spec fn read_2(self) -> u8 {
        (0x9f + self.volume * 32) as u8
    }

    pub open spec fn write_2(self, value: u8) -> ApuWaveView {
        ApuWaveView { volume: (value / 32) % 4, ..self }
    }

    pub open spec fn write_3(self, value: u8) -> ApuWaveView {
        ApuWaveView { frequency: ((self.frequency / 256) * 256 + value) as u16, ..self }
    }

    pub open spec fn read_4(self) -> u8 {
        (0xbf + flag(self.counter, 0x40)) as u8
    }

    /// The state after a trigger: enabled exactly if the DAC is on, an
    /// exhausted length counter refilled, the frequency timer reloaded and
    /// playback back at the start of the table.
    pub open spec fn trigger(self) -> ApuWaveView {
        ApuWaveView {
            enabled: self.dac_enable,
            length: if self.length == 0 { 256 } else { self.length },
            period: self.reload(),
            index: 0,
            ..self
        }
    }

    pub open spec fn write_4(self, value: u8) -> ApuWaveView {
        let written = ApuWaveView {
            counter: value & 0x40 != 0,
            frequency: (self.frequency % 256 + (value % 8) * 256) as u16,
            ..self
        };
        if value & 0x80 != 0 {
            written.trigger()
        } else {
            written
        }
    }

    pub open spec fn write_wavetable(self, index: int, value: u8) -> ApuWaveView {
        ApuWaveView { wavetable: self.wavetable.update(index, value), ..self }
    }
}

pub struct ApuWave {
    wavetable: Vec<u8>,
    index: u8,
    sample: u8,
    dac_enable: bool,
    length: u16,
    volume: u8,
    frequency: u16,
    period: u16,
    counter: bool,
    enabled: bool,
}

impl View for ApuWave {
    type V = ApuWaveView;

    closed spec fn view(&self) -> ApuWaveView {
        ApuWaveView {
            wavetable: self.wavetable@,
            index: self.index,
            sample: self.sample,
            dac_enable: self.dac_enable,
            length: self.length,
            volume: self.volume,
            frequency: self.frequency,
            period: self.period,
            counter: self.counter,
            enabled: self.enabled,
        }
    }
}

impl ApuWave {
    pub fn new() -> (r: ApuWave)
        ensures
            r@ == ApuWaveView::init(),
            r@.wf(),
    {
        let r = ApuWave {
            wavetable: vec![
                0x84u8,
                0x40u8,
                0x43u8,
                0xaau8,
                0x2du8,
                0x78u8,
                0x92u8,
                0x3cu8,
                0x60u8,
                0x59u8,
                0x59u8,
                0xb0u8,
                0x34u8,
                0xb8u8,
                0x2eu8,
                0xdau8,
            ],
            index: 0,
            sample: 0,
            dac_enable: false,
            length: 0,
            volume: 0,
            frequency: 0,
            period: 0,
            counter: false,
            enabled: false,
        };
        assert(r@.wavetable =~= initial_wavetable());
        r
    }

    pub fn reset(&mut self)
        ensures
            final(self)@ == old(self)@.reset(),
            old(self)@.wf() ==> final(self)@.wf(),
    {
        self.dac_enable = false;
        self.volume = 0;
        self.frequency = 0;
        self.counter = false;
        self.enabled = false;
    }

    fn advance(&mut self)
        requires
            old(self)@.wf(),
        ensures
            final(self)@ == old(self)@.tick(),
            final(self)@.wf(),
    {
        if self.period != 0 {
            self.period -= 1;
            return ;
        }
        self.period = (2048 - self.frequency) * 2;
        self.index = (self.index + 1) % 32;
        let sample_byte = self.wavetable[(self.index / 2) as usize];
        self.sample = if self.index % 2 != 0 {
            sample_byte % 16
        } else {
            sample_byte / 16
        };
    }

    /// One base clock; returns the channel's output after it.
    pub fn tick(&mut self) -> (r: usize)
        requires
            old(self)@.wf(),
        ensures
            final(self)@ == old(self)@.tick(),
            final(self)@.wf(),
            r == final(self)@.output(),
            r <= 15,
    {
        self.advance();
        if !self.enabled || !self.dac_enable {
            return 0;
        }
        match self.volume {
            0 => 0,
            1 => self.sample as usize,
            2 => (self.sample / 2) as usize,
            _ => (self.sample / 4) as usize,
        }
    }

    pub fn tick_length(&mut self)
        requires
            old(self)@.wf(),
        ensures
            final(self)@ == old(self)@.tick_length(),
            final(self)@.wf(),
    {
        if self.counter && self.length != 0 {
            self.length -= 1;
            self.enabled = self.enabled && self.length != 0;
        }
    }

    pub fn read_0(&self) -> (r: u8)
        ensures
            r == self@.read_0(),
    {
        if self.dac_enable {
            0xff
        } else {
            0x7f
        }
    }

    pub fn write_0(&mut self, value: u8)
        ensures
            final(self)@ == old(self)@.write_0(value),
            old(self)@.wf() ==> final(self)@.wf(),
    {
        self.dac_enable = (value & 0x80) != 0;
    }

    pub fn read_1(&self) -> (r: u8)
        ensures
            r == 0xff,
    {
        0xff
    }

    pub fn write_1(&mut self, value: u8)
        ensures
            final(self)@ == old(self)@.write_1(value),
            old(self)@.wf() ==> final(self)@.wf(),
    {
        self.length = 256 - value as u16;
    }

    pub fn read_2(&self) -> (r: u8)
        requires
            self@.wf(),
        ensures
            r == self@.read_2(),
    {
        0x9f + self.volume * 32
    }

    pub fn write_2(&mut self, value: u8)
        ensures
            final(self)@ == old(self)@.write_2(value),
            old(self)@.wf() ==> final(self)@.wf(),
    {
        self.volume = (value / 32) % 4;
    }

    pub fn read_3(&self) -> (r: u8)
        ensures
            r == 0xff,
    {
        0xff
    }

    pub fn write_3(&mut self, value: u8)
        requires
            old(self)@.wf(),
        ensures
            final(self)@ == old(self)@.write_3(value),
            final(self)@.wf(),
    {
        self.frequency = (self.frequency / 256) * 256 + value as u16;
    }

    pub fn read_4(&self) -> (r: u8)
        ensures
            r == self@.read_4(),
    {
        if self.counter {
            0xff
        } else {
            0xbf
        }
    }

    fn trigger(&mut self)
        requires
            old(self)@.wf(),
        ensures
            final(self)@ == old(self)@.trigger(),
            final(self)@.wf(),
    {
        self.enabled = self.dac_enable;
        self.length = if self.length == 0 {
            256
        } else {
            self.length
        };
        self.period = (2048 - self.frequency) * 2;
        self.index = 0;
    }

    /// A write of the control register. After a trigger the channel is
    /// enabled if and only if its DAC is on.
    pub fn write_4(&mut self, value: u8)
        requires
            old(self)@.wf(),
        ensures
            final(self)@ == old(self)@.write_4(value),
            final(self)@.wf(),
            value & 0x80 != 0 ==> final(self)@.enabled == old(self)@.dac_enable,
            value & 0x80 == 0 ==> final(self)@.enabled == old(self)@.enabled,
    {
        self.counter = (value & 0x40) != 0;
        self.frequency = self.frequency % 256 + (value % 8) as u16 * 256;
        if (value & 0x80) != 0 {
            self.trigger();
        }
    }

    pub fn read_wavetable(&self, index: usize) -> (r: u8)
        requires
            self@.wf(),
            index < 16,
        ensures
            r == self@.wavetable[index as int],
    {
        self.wavetable[index]
    }

    pub fn write_wavetable(&mut self, index: usize, value: u8)
        requires
            old(self)@.wf(),
            index < 16,
        ensures
            final(self)@ == old(self)@.write_wavetable(index as int, value),
            final(self)@.wf(),
    {
        self.wavetable[index] = value;
    }

    pub fn enabled(&self) -> (r: bool)
        ensures
            r == self@.enabled,
    {
        self.enabled
    }
}

} // verus!
