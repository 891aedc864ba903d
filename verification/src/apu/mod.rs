//! The audio processing unit: two square channels, a wave channel and a
//! noise channel behind a frame sequencer and a mixer.

pub mod noise;
pub mod square;
pub mod wave;

use vstd::prelude::*;
use crate::apu::noise::ApuNoise;
use crate::apu::square::ApuSquare;
use crate::apu::wave::{ApuWave, ApuWaveView};
use crate::audio_system::{AudioSystem, AudioSystemView};
use crate::bits::flag;

verus! {

/// Base clocks between two steps of the frame sequencer.
pub const FRAME_SEQUENCER_CLOCKS: u16 = 8192;

/// Base clocks between two sample pairs.
pub const SAMPLE_CLOCKS: u8 = 95;

/// Which channels reach one side of the output.
#[derive(Clone, Copy, Debug, PartialEq, Eq, Structural)]
pub struct ChannelMask {
    pub square1: bool,
    pub square2: bool,
    pub wave: bool,
    pub noise: bool,
}

impl ChannelMask {
    pub open spec fn spec_none() -> ChannelMask {
        ChannelMask { square1: false, square2: false, wave: false, noise: false }
    }

    /// The mask that the low nibble of a byte holds.
    pub open spec fn spec_from_nibble(value: u8) -> ChannelMask {
        ChannelMask {
            square1: value & 0x01 != 0,
            square2: value & 0x02 != 0,
            wave: value & 0x04 != 0,
            noise: value & 0x08 != 0,
        }
    }

    pub open spec fn spec_nibble(self) -> int {
        flag(self.noise, 8) + flag(self.wave, 4) + flag(self.square2, 2) + flag(self.square1, 1)
    }

    pub fn none() -> (r: ChannelMask)
        ensures
            r == ChannelMask::spec_none(),
    {
        ChannelMask { square1: false, square2: false, wave: false, noise: false }
    }

    pub fn from_nibble(value: u8) -> (r: ChannelMask)
        ensures
            r == ChannelMask::spec_from_nibble(value),
    {
        ChannelMask {
            square1: (value & 0x01) != 0,
            square2: (value & 0x02) != 0,
            wave: (value & 0x04) != 0,
            noise: (value & 0x08) != 0,
        }
    }

    pub fn nibble(&self) -> (r: u8)
        ensures
            r == self.spec_nibble(),
            r <= 15,
    {
        let b3: u8 = if self.noise { 8 } else { 0 };
        let b2: u8 = if self.wave { 4 } else { 0 };
        let b1: u8 = if self.square2 { 2 } else { 0 };
        let b0: u8 = if self.square1 { 1 } else { 0 };
        b3 + b2 + b1 + b0
    }
}

/// One side's sample: the channel sum (0..=60) centred on zero and scaled by
/// the master volume (0..=7). Full volume spans -16384..=14336.
pub open spec fn mixed(sum: int, volume: u8) -> i16 {
    ((volume + 1) * (64 * sum - 2048)) as i16
}

/// The APU as data.
pub struct ApuView {
    pub audio_system: AudioSystemView,
    /// The master enable.
    pub enable: bool,
    /// Base clocks until the next sample pair.
    pub rs_period: u8,
    /// Base clocks until the next step of the frame sequencer.
    pub fs_period: u16,
    pub fs_step: u8,
    pub l_volume: u8,
    pub r_volume: u8,
    pub l_vin: bool,
    pub r_vin: bool,
    pub l_enable: ChannelMask,
    pub r_enable: ChannelMask,
    pub square1: ApuSquare,
    pub square2: ApuSquare,
    pub noise: ApuNoise,
    pub wave: ApuWaveView,
}

impl ApuView {
    pub open spec fn wf(self) -> bool {
        &&& self.rs_period < SAMPLE_CLOCKS
        &&& self.fs_period < FRAME_SEQUENCER_CLOCKS
        &&& self.fs_step <= 7
        &&& self.l_volume <= 7
        &&& self.r_volume <= 7
        &&& self.square1.wf()
        &&& self.square2.wf()
        &&& self.noise.wf()
        &&& self.wave.wf()
    }

    pub open spec fn init() -> ApuView {
        ApuView {
            audio_system: AudioSystemView::init(),
            enable: false,
            rs_period: 0,
            fs_period: 0,
            fs_step: 0,
            l_volume: 0,
            r_volume: 0,
            l_vin: false,
            r_vin: false,
            l_enable: ChannelMask::spec_none(),
            r_enable: ChannelMask::spec_none(),
            square1: ApuSquare::spec_new(),
            square2: ApuSquare::spec_new(),
            noise: ApuNoise::spec_new(),
            wave: ApuWaveView::init(),
        }
    }

    // ----- the frame sequencer -----

    pub open spec fn tick_lengths(self) -> ApuView {
        ApuView {
            square1: self.square1.spec_tick_length(),
            square2: self.square2.spec_tick_length(),
            wave: self.wave.tick_length(),
            noise: self.noise.spec_tick_length(),
            ..self
        }
    }

    pub open spec fn tick_envelopes(self) -> ApuView {
        ApuView {
            square1: self.square1.spec_tick_envelope(),
            square2: self.square2.spec_tick_envelope(),
            noise: self.noise.spec_tick_envelope(),
            ..self
        }
    }

    /// A step of the frame sequencer: every even step ticks the length
    /// counters, steps 2 and 6 also tick the sweep of the first square
    /// channel, and step 7 ticks the envelopes.
    #[verifier::opaque]
    pub open spec fn sequencer_step(self) -> ApuView {
        let step = ((self.fs_step + 1) % 8) as u8;
        let stepped = ApuView {
            fs_period: (FRAME_SEQUENCER_CLOCKS - 1) as u16,
            fs_step: step,
            ..self
        };
        if step == 7 {
            stepped.tick_envelopes()
        } else if step % 4 == 2 {
            let lengths = stepped.tick_lengths();
            ApuView { square1: lengths.square1.spec_tick_sweep(), ..lengths }
        } else if step % 2 == 0 {
            stepped.tick_lengths()
        } else {
            stepped
        }
    }

    /// One base clock of the frame sequencer's prescaler.
    #[verifier::opaque]
    pub open spec fn tick_frame_sequencer(self) -> ApuView {
        if self.fs_period == 0 {
            self.sequencer_step()
        } else {
            ApuView { fs_period: (self.fs_period - 1) as u16, ..self }
        }
    }

    // ----- the mixer -----

    /// One base clock of each channel.
    #[verifier::opaque]
    pub open spec fn tick_channels(self) -> ApuView {
        ApuView {
            square1: self.square1.spec_tick(),
            square2: self.square2.spec_tick(),
            wave: self.wave.tick(),
            noise: self.noise.spec_tick(),
            ..self
        }
    }

    /// The sum of the outputs of the channels that a mask lets through.
    pub open spec fn channel_sum(self, mask: ChannelMask) -> int {
        let square1 = flag(mask.square1, self.square1.output() as int);
        let square2 = flag(mask.square2, self.square2.output() as int);
        let wave = flag(mask.wave, self.wave.output() as int);
        let noise = flag(mask.noise, self.noise.output() as int);
        square1 + square2 + wave + noise
    }

    pub open spec fn left_sample(self) -> i16 {
        mixed(self.channel_sum(self.l_enable), self.l_volume)
    }

    pub open spec fn right_sample(self) -> i16 {
        mixed(self.channel_sum(self.r_enable), self.r_volume)
    }

    /// One base clock of the downsampling prescaler: when it runs out, the
    /// current sample pair goes to the sink, left first.
    #[verifier::opaque]
    pub open spec fn tick_prescaler(self) -> ApuView {
        if self.rs_period == 0 {
            ApuView {
                rs_period: (SAMPLE_CLOCKS - 1) as u8,
                audio_system: self.audio_system.add_samples(
                    seq![self.left_sample(), self.right_sample()],
                ),
                ..self
            }
        } else {
            ApuView { rs_period: (self.rs_period - 1) as u8, ..self }
        }
    }

    /// One base clock of a running APU.
    #[verifier::opaque]
    pub open spec fn tick_one(self) -> ApuView {
        self.tick_frame_sequencer().tick_channels().tick_prescaler()
    }

    /// `cycles` base clocks of a running APU.
    #[verifier::opaque]
    pub open spec fn tick_running(self, cycles: nat) -> ApuView
        decreases cycles,
    {
        if cycles == 0 {
            self
        } else {
            self.tick_one().tick_running((cycles - 1) as nat)
        }
    }

    /// `cycles` base clocks. A powered-down APU stands still.
    #[verifier::opaque]
    pub open spec fn tick(self, cycles: nat) -> ApuView {
        if self.enable {
            self.tick_running(cycles)
        } else {
            self
        }
    }

    /// Sample pairs that the next `cycles` base clocks of a running APU emit.
    pub open spec fn samples(self, cycles: nat) -> nat
        decreases cycles,
    {
        if cycles == 0 {
            0
        } else {
            flag(self.rs_period == 0, 1) as nat + self.tick_one().samples((cycles - 1) as nat)
        }
    }

    // ----- the registers -----

    /// A write to NR52: bit 7 is the master enable. Power-off pauses the
    /// sink and clears every register but the length counters and the wave
    /// table; power-on lets the sink play.
    #[verifier::opaque]
    pub open spec fn power(self, on: bool) -> ApuView {
        if on {
            ApuView { enable: true, audio_system: self.audio_system.resume(), ..self }
        } else {
            ApuView {
                audio_system: self.audio_system.pause(),
                enable: false,
                rs_period: 0,
                fs_period: 0,
                fs_step: 0,
                l_volume: 0,
                r_volume: 0,
                l_vin: false,
                r_vin: false,
                l_enable: ChannelMask::spec_none(),
                r_enable: ChannelMask::spec_none(),
                square1: self.square1.spec_reset(),
                square2: self.square2.spec_reset(),
                noise: self.noise.spec_reset(),
                wave: self.wave.reset(),
            }
        }
    }

    /// A write to a square channel's NRx1: the length always, the duty only
    /// while powered.
    pub open spec fn write_duty_length(self, square: ApuSquare, value: u8) -> ApuSquare {
        if self.enable {
            square.spec_write_duty(value / 64).spec_write_length(value)
        } else {
            square.spec_write_length(value)
        }
    }

    /// A write to NR14: the control register of the first square channel,
    /// whose trigger also makes the sweep's overflow check at once.
    pub open spec fn write_nr14(self, value: u8) -> ApuSquare {
        if value & 0x80 != 0 {
            self.square1.spec_write_4(value).spec_sweep_overflow_check()
        } else {
            self.square1.spec_write_4(value)
        }
    }

    /// The APU after a write to one of 0xff10..0xff40. The length registers,
    /// NR52 and the wave table take writes at any time; the others only
    /// while the APU is powered. Addresses without a register ignore writes.
    #[verifier::opaque]
    pub open spec fn write_register(self, address: u16, value: u8) -> ApuView {
        if address == 0xff26 {
            self.power(value & 0x80 != 0)
        } else if address == 0xff11 {
            ApuView { square1: self.write_duty_length(self.square1, value), ..self }
        } else if address == 0xff16 {
            ApuView { square2: self.write_duty_length(self.square2, value), ..self }
        } else if address == 0xff1b {
            ApuView { wave: self.wave.write_1(value), ..self }
        } else if address == 0xff20 {
            ApuView { noise: self.noise.spec_write_1(value), ..self }
        } else if 0xff30 <= address < 0xff40 {
            ApuView { wave: self.wave.write_wavetable(address - 0xff30, value), ..self }
        } else if !self.enable {
            self
        } else if address == 0xff10 {
            ApuView { square1: self.square1.spec_write_0(value), ..self }
        } else if address == 0xff12 {
            ApuView { square1: self.square1.spec_write_2(value), ..self }
        } else if address == 0xff13 {
            ApuView { square1: self.square1.spec_write_3(value), ..self }
        } else if address == 0xff14 {
            ApuView { square1: self.write_nr14(value), ..self }
        } else if address == 0xff17 {
            ApuView { square2: self.square2.spec_write_2(value), ..self }
        } else if address == 0xff18 {
            ApuView { square2: self.square2.spec_write_3(value), ..self }
        } else if address == 0xff19 {
            ApuView { square2: self.square2.spec_write_4(value), ..self }
        } else if address == 0xff1a {
            ApuView { wave: self.wave.write_0(value), ..self }
        } else if address == 0xff1c {
            ApuView { wave: self.wave.write_2(value), ..self }
        } else if address == 0xff1d {
            ApuView { wave: self.wave.write_3(value), ..self }
        } else if address == 0xff1e {
            ApuView { wave: self.wave.write_4(value), ..self }
        } else if address == 0xff21 {
            ApuView { noise: self.noise.spec_write_2(value), ..self }
        } else if address == 0xff22 {
            ApuView { noise: self.noise.spec_write_3(value), ..self }
        } else if address == 0xff23 {
            ApuView { noise: self.noise.spec_write_4(value), ..self }
        } else if address == 0xff24 {
            ApuView {
                l_vin: value & 0x80 != 0,
                l_volume: (value / 16) % 8,
                r_vin: value & 0x08 != 0,
                r_volume: value % 8,
                ..self
            }
        } else if address == 0xff25 {
            ApuView {
                l_enable: ChannelMask::spec_from_nibble(value / 16),
                r_enable: ChannelMask::spec_from_nibble(value),
                ..self
            }
        } else {
            self
        }
    }

    /// What a read of one of 0xff10..0xff40 returns. Bits that a register
    /// does not hold, and addresses without a register, read as ones.
    #[verifier::opaque]
    pub open spec fn read_register(self, address: u16) -> u8 {
        if address == 0xff10 {
            self.square1.spec_read_0()
        } else if address == 0xff11 {
            self.square1.spec_read_1()
        } else if address == 0xff12 {
            self.square1.spec_read_2()
        } else if address == 0xff14 {
            self.square1.spec_read_4()
        } else if address == 0xff16 {
            self.square2.spec_read_1()
        } else if address == 0xff17 {
            self.square2.spec_read_2()
        } else if address == 0xff19 {
            self.square2.spec_read_4()
        } else if address == 0xff1a {
            self.wave.read_0()
        } else if address == 0xff1c {
            self.wave.read_2()
        } else if address == 0xff1e {
            self.wave.read_4()
        } else if address == 0xff21 {
            self.noise.spec_read_2()
        } else if address == 0xff22 {
            self.noise.spec_read_3()
        } else if address == 0xff23 {
            self.noise.spec_read_4()
        } else if address == 0xff24 {
            (flag(self.l_vin, 0x80) + self.l_volume * 16 + flag(self.r_vin, 0x08)
                + self.r_volume) as u8
        } else if address == 0xff25 {
            (self.l_enable.spec_nibble() * 16 + self.r_enable.spec_nibble()) as u8
        } else if address == 0xff26 {
            (0x70 + flag(self.enable, 0x80) + flag(self.noise.enabled, 8) + flag(
                self.wave.enabled,
                4,
            ) + flag(self.square2.enabled, 2) + flag(self.square1.enabled, 1)) as u8
        } else if 0xff30 <= address < 0xff40 {
            self.wave.wavetable[address - 0xff30]
        } else {
            0xff
        }
    }

    // ----- laws -----

    /// A trigger of a powered APU leaves the second square channel, the
    /// wave channel and the noise channel enabled exactly if their DAC is on.
    /// The first square channel also has to pass the sweep's overflow check.
    pub proof fn lemma_trigger(a: ApuView, value: u8)
        requires
            a.enable,
            value & 0x80 != 0,
        ensures
            a.write_register(0xff19, value).square2.enabled == a.square2.dac_on(),
            a.write_register(0xff1e, value).wave.enabled == a.wave.dac_enable,
            a.write_register(0xff23, value).noise.enabled == a.noise.dac_on(),
            a.write_register(0xff14, value).square1.enabled == (a.square1.dac_on()
                && a.square1.spec_write_4(value).swept() <= 2047),
    {
        reveal(ApuView::write_register);
    }

    /// A step of the frame sequencer keeps the APU well-formed and touches
    /// neither the master enable nor the downsampling prescaler.
    pub proof fn lemma_sequencer_step(a: ApuView)
        requires
            a.wf(),
        ensures
            a.sequencer_step().wf(),
            a.sequencer_step().enable == a.enable,
            a.sequencer_step().rs_period == a.rs_period,
            a.sequencer_step().fs_period == FRAME_SEQUENCER_CLOCKS - 1,
            a.sequencer_step().fs_step == (a.fs_step + 1) % 8,
    {
        reveal(ApuView::sequencer_step);
        ApuSquare::lemma_tick_sweep_wf(a.square1.spec_tick_length());
    }

    /// A base clock of the channels keeps the APU well-formed and touches
    /// neither the master enable nor the downsampling prescaler.
    pub proof fn lemma_tick_channels(a: ApuView)
        requires
            a.wf(),
        ensures
            a.tick_channels().wf(),
            a.tick_channels().enable == a.enable,
            a.tick_channels().rs_period == a.rs_period,
            a.tick_channels().fs_period == a.fs_period,
            a.tick_channels().fs_step == a.fs_step,
    {
        reveal(ApuView::tick_channels);
    }

    /// A base clock keeps a running APU well-formed and powered, moves the
    /// downsampling prescaler one step along its cycle of 95 and the
    /// prescaler of the frame sequencer one step along its cycle of 8192,
    /// at whose end the sequencer steps.
    pub proof fn lemma_tick_one(a: ApuView)
        requires
            a.wf(),
        ensures
            a.tick_one().wf(),
            a.tick_one().enable == a.enable,
            a.tick_one().rs_period == (if a.rs_period == 0 {
                SAMPLE_CLOCKS - 1
            } else {
                a.rs_period - 1
            }),
            a.tick_one().fs_period == (if a.fs_period == 0 {
                FRAME_SEQUENCER_CLOCKS - 1
            } else {
                a.fs_period - 1
            }),
            a.tick_one().fs_step == (if a.fs_period == 0 {
                (a.fs_step + 1) % 8
            } else {
                a.fs_step as int
            }),
    {
        reveal(ApuView::tick_one);
        reveal(ApuView::tick_frame_sequencer);
        reveal(ApuView::tick_prescaler);
        ApuView::lemma_sequencer_step(a);
        let b = a.tick_frame_sequencer();
        assert(b.wf() && b.enable == a.enable && b.rs_period == a.rs_period);
        assert(b.fs_period == (if a.fs_period == 0 {
            FRAME_SEQUENCER_CLOCKS - 1
        } else {
            a.fs_period - 1
        }));
        ApuView::lemma_tick_channels(b);
    }

    /// The sample pairs that `cycles` base clocks emit depend only on the
    /// prescaler: none before it runs out, then one every 95 clocks.
    pub proof fn lemma_samples(a: ApuView, cycles: nat)
        requires
            a.wf(),
        ensures
            a.samples(cycles) == (if cycles <= a.rs_period {
                0
            } else {
                1 + (cycles - a.rs_period - 1) / 95
            }),
        decreases cycles,
    {
        if cycles > 0 {
            ApuView::lemma_tick_one(a);
            ApuView::lemma_samples(a.tick_one(), (cycles - 1) as nat);
        }
    }

    /// Any 95 base clocks in a row of a running APU emit exactly one sample
    /// pair.
    pub proof fn lemma_one_sample_per_period(a: ApuView)
        requires
            a.wf(),
            a.enable,
        ensures
            a.samples(95) == 1,
            a.tick(95) == a.tick_running(95),
    {
        reveal(ApuView::tick);
        ApuView::lemma_samples(a, 95);
    }
}

pub struct Apu {
    audio_system: AudioSystem,
    enable: bool,
    rs_period: u8,
    fs_period: u16,
    fs_step: u8,
    l_volume: u8,
    r_volume: u8,
    l_vin: bool,
    r_vin: bool,
    l_enable: ChannelMask,
    r_enable: ChannelMask,
    square1: ApuSquare,
    square2: ApuSquare,
    noise: ApuNoise,
    wave: ApuWave,
}

impl View for Apu {
    type V = ApuView;

    closed spec fn view(&self) -> ApuView {
        ApuView {
            audio_system: self.audio_system@,
            enable: self.enable,
            rs_period: self.rs_period,
            fs_period: self.fs_period,
            fs_step: self.fs_step,
            l_volume: self.l_volume,
            r_volume: self.r_volume,
            l_vin: self.l_vin,
            r_vin: self.r_vin,
            l_enable: self.l_enable,
            r_enable: self.r_enable,
            square1: self.square1,
            square2: self.square2,
            noise: self.noise,
            wave: self.wave@,
        }
    }
}

fn mix(mask: ChannelMask, volume: u8, sq1: usize, sq2: usize, wave: usize, noise: usize) -> (r: i16)
    requires
        volume <= 7,
        sq1 <= 15,
        sq2 <= 15,
        wave <= 15,
        noise <= 15,
    ensures
        r == mixed(
            flag(mask.square1, sq1 as int) + flag(mask.square2, sq2 as int) + flag(
                mask.wave,
                wave as int,
            ) + flag(mask.noise, noise as int),
            volume,
        ),
{
    let mut sum: i16 = 0;
    if mask.square1 {
        sum += sq1 as i16;
    }
    if mask.square2 {
        sum += sq2 as i16;
    }
    if mask.wave {
        sum += wave as i16;
    }
    if mask.noise {
        sum += noise as i16;
    }
    let centred: i16 = 64 * sum - 2048;
    let scale: i16 = volume as i16 + 1;
    assert(-16384 <= scale * centred <= 14336) by (nonlinear_arith)
        requires
            1 <= scale <= 8,
            -2048 <= centred <= 1792,
    ;
    scale * centred
}

impl Apu {
    pub fn new(audio_system: AudioSystem) -> (r: Apu)
        ensures
            r@ == (ApuView { audio_system: audio_system@, ..ApuView::init() }),
            r@.wf(),
    {
        Apu {
            audio_system,
            enable: false,
            rs_period: 0,
            fs_period: 0,
            fs_step: 0,
            l_volume: 0,
            r_volume: 0,
            l_vin: false,
            r_vin: false,
            l_enable: ChannelMask::none(),
            r_enable: ChannelMask::none(),
            square1: ApuSquare::new(),
            square2: ApuSquare::new(),
            wave: ApuWave::new(),
            noise: ApuNoise::new(),
        }
    }

    /// The sink, for the host to collect the batches from.
    pub fn audio_system(&mut self) -> (r: &mut AudioSystem)
        ensures
            r@ == old(self)@.audio_system,
            final(self)@ == (ApuView { audio_system: final(r)@, ..old(self)@ }),
    {
        &mut self.audio_system
    }

    /// Advances the APU by `cycles` base clocks. Nothing moves while it is
    /// powered down.
    pub fn tick(&mut self, cycles: usize)
        requires
            old(self)@.wf(),
        ensures
            final(self)@ == old(self)@.tick(cycles as nat),
            final(self)@.wf(),
    {
        proof {
            reveal(ApuView::tick);
            reveal_with_fuel(ApuView::tick_running, 2);
        }
        if !self.enable {
            return ;
        }
        let mut i: usize = 0;
        while i < cycles
            invariant
                i <= cycles,
                self@.wf(),
                self@.enable,
                self@.tick_running((cycles - i) as nat) == old(self)@.tick_running(cycles as nat),
            decreases cycles - i,
        {
            proof {
                reveal_with_fuel(ApuView::tick_running, 2);
                ApuView::lemma_tick_one(self@);
            }
            self.tick_one();
            i += 1;
        }
    }

    fn tick_lengths(&mut self)
        requires
            old(self)@.wf(),
        ensures
            final(self)@ == old(self)@.tick_lengths(),
            final(self)@.wf(),
    {
        self.square1.tick_length();
        self.square2.tick_length();
        self.wave.tick_length();
        self.noise.tick_length();
    }

    fn tick_envelopes(&mut self)
        requires
            old(self)@.wf(),
        ensures
            final(self)@ == old(self)@.tick_envelopes(),
            final(self)@.wf(),
    {
        self.square1.tick_envelope();
        self.square2.tick_envelope();
        self.noise.tick_envelope();
    }

    fn sequencer_step(&mut self)
        requires
            old(self)@.wf(),
        ensures
            final(self)@ == old(self)@.sequencer_step(),
            final(self)@.wf(),
    {
        proof {
            reveal(ApuView::sequencer_step);
        }
        self.fs_period = FRAME_SEQUENCER_CLOCKS - 1;
        self.fs_step = (self.fs_step + 1) % 8;
        if self.fs_step == 7 {
            self.tick_envelopes();
            return ;
        }
        if self.fs_step % 2 == 0 {
            self.tick_lengths();
        }
        if self.fs_step % 4 == 2 {
            self.square1.tick_sweep();
        }
    }

    fn tick_frame_sequencer(&mut self)
        requires
            old(self)@.wf(),
        ensures
            final(self)@ == old(self)@.tick_frame_sequencer(),
            final(self)@.wf(),
    {
        proof {
            reveal(ApuView::tick_frame_sequencer);
        }
        if self.fs_period == 0 {
            self.sequencer_step();
            return ;
        }
        self.fs_period -= 1;
    }

    fn tick_prescaler(&mut self, l_out: i16, r_out: i16)
        requires
            old(self)@.wf(),
            l_out == old(self)@.left_sample(),
            r_out == old(self)@.right_sample(),
        ensures
            final(self)@ == old(self)@.tick_prescaler(),
            final(self)@.wf(),
    {
        proof {
            reveal(ApuView::tick_prescaler);
        }
        if self.rs_period == 0 {
            self.rs_period = SAMPLE_CLOCKS - 1;
            let pair: [i16; 2] = [l_out, r_out];
            assert(pair@ =~= seq![l_out, r_out]);
            self.audio_system.add_samples(pair.as_slice());
        } else {
            self.rs_period -= 1;
        }
    }

    /// One base clock of each channel; returns their outputs.
    fn tick_channels(&mut self) -> (r: (usize, usize, usize, usize))
        requires
            old(self)@.wf(),
        ensures
            final(self)@ == old(self)@.tick_channels(),
            final(self)@.wf(),
            r.0 == final(self)@.square1.output(),
            r.1 == final(self)@.square2.output(),
            r.2 == final(self)@.wave.output(),
            r.3 == final(self)@.noise.output(),
            r.0 <= 15 && r.1 <= 15 && r.2 <= 15 && r.3 <= 15,
    {
        proof {
            reveal(ApuView::tick_channels);
        }
        let sq1 = self.square1.tick();
        let sq2 = self.square2.tick();
        let wave = self.wave.tick();
        let noise = self.noise.tick();
        (sq1, sq2, wave, noise)
    }

    fn tick_one(&mut self)
        requires
            old(self)@.wf(),
        ensures
            final(self)@ == old(self)@.tick_one(),
            final(self)@.wf(),
    {
        proof {
            reveal(ApuView::tick_one);
        }
        self.tick_frame_sequencer();
        let (sq1, sq2, wave, noise) = self.tick_channels();
        let l_out = mix(self.l_enable, self.l_volume, sq1, sq2, wave, noise);
        let r_out = mix(self.r_enable, self.r_volume, sq1, sq2, wave, noise);
        self.tick_prescaler(l_out, r_out);
    }

    pub fn nr10_read(&self) -> (r: u8)
        requires
            self@.wf(),
        ensures
            r == self@.read_register(0xff10),
    {
        proof {
            reveal(ApuView::read_register);
        }
        self.square1.read_0()
    }

    pub fn nr10_write(&mut self, value: u8)
        requires
            old(self)@.wf(),
        ensures
            final(self)@ == old(self)@.write_register(0xff10, value),
            final(self)@.wf(),
    {
        proof {
            reveal(ApuView::write_register);
        }
        if !self.enable {
            return ;
        }
        self.square1.write_0(value);
    }

    pub fn nr11_read(&self) -> (r: u8)
        requires
            self@.wf(),
        ensures
            r == self@.read_register(0xff11),
    {
        proof {
            reveal(ApuView::read_register);
        }
        self.square1.read_1()
    }

    pub fn nr11_write(&mut self, value: u8)
        requires
            old(self)@.wf(),
        ensures
            final(self)@ == old(self)@.write_register(0xff11, value),
            final(self)@.wf(),
    {
        proof {
            reveal(ApuView::write_register);
        }
        if self.enable {
            self.square1.write_duty(value / 64);
        }
        self.square1.write_length(value);
    }

    pub fn nr12_read(&self) -> (r: u8)
        requires
            self@.wf(),
        ensures
            r == self@.read_register(0xff12),
    {
        proof {
            reveal(ApuView::read_register);
        }
        self.square1.read_2()
    }

    pub fn nr12_write(&mut self, value: u8)
        requires
            old(self)@.wf(),
        ensures
            final(self)@ == old(self)@.write_register(0xff12, value),
            final(self)@.wf(),
    {
        proof {
            reveal(ApuView::write_register);
        }
        if !self.enable {
            return ;
        }
        self.square1.write_2(value);
    }

    pub fn nr13_read(&self) -> (r: u8)
        requires
            self@.wf(),
        ensures
            r == self@.read_register(0xff13),
    {
        proof {
            reveal(ApuView::read_register);
        }
        self.square1.read_3()
    }

    pub fn nr13_write(&mut self, value: u8)
        requires
            old(self)@.wf(),
        ensures
            final(self)@ == old(self)@.write_register(0xff13, value),
            final(self)@.wf(),
    {
        proof {
            reveal(ApuView::write_register);
        }
        if !self.enable {
            return ;
        }
        self.square1.write_3(value);
    }

    pub fn nr14_read(&self) -> (r: u8)
        requires
            self@.wf(),
        ensures
            r == self@.read_register(0xff14),
    {
        proof {
            reveal(ApuView::read_register);
        }
        self.square1.read_4()
    }

    /// A trigger of the first square channel also makes the sweep's overflow
    /// check at once.
    pub fn nr14_write(&mut self, value: u8)
        requires
            old(self)@.wf(),
        ensures
            final(self)@ == old(self)@.write_register(0xff14, value),
            final(self)@.wf(),
    {
        proof {
            reveal(ApuView::write_register);
        }
        if !self.enable {
            return ;
        }
        self.square1.write_4(value);
        if (value & 0x80) != 0 {
            self.square1.sweep_overflow_check();
        }
    }

    pub fn nr20_read(&self) -> (r: u8)
        requires
            self@.wf(),
        ensures
            r == self@.read_register(0xff15),
    {
        proof {
            reveal(ApuView::read_register);
        }
        0xff
    }

    pub fn nr20_write(&mut self, value: u8)
        requires
            old(self)@.wf(),
        ensures
            final(self)@ == old(self)@.write_register(0xff15, value),
            final(self)@.wf(),
    {
        proof {
            reveal(ApuView::write_register);
        }
        return ;
    }

    pub fn nr21_read(&self) -> (r: u8)
        requires
            self@.wf(),
        ensures
            r == self@.read_register(0xff16),
    {
        proof {
            reveal(ApuView::read_register);
        }
        self.square2.read_1()
    }

    pub fn nr21_write(&mut self, value: u8)
        requires
            old(self)@.wf(),
        ensures
            final(self)@ == old(self)@.write_register(0xff16, value),
            final(self)@.wf(),
    {
        proof {
            reveal(ApuView::write_register);
        }
        if self.enable {
            self.square2.write_duty(value / 64);
        }
        self.square2.write_length(value);
    }

    pub fn nr22_read(&self) -> (r: u8)
        requires
            self@.wf(),
        ensures
            r == self@.read_register(0xff17),
    {
        proof {
            reveal(ApuView::read_register);
        }
        self.square2.read_2()
    }

    pub fn nr22_write(&mut self, value: u8)
        requires
            old(self)@.wf(),
        ensures
            final(self)@ == old(self)@.write_register(0xff17, value),
            final(self)@.wf(),
    {
        proof {
            reveal(ApuView::write_register);
        }
        if !self.enable {
            return ;
        }
        self.square2.write_2(value);
    }

    pub fn nr23_read(&self) -> (r: u8)
        requires
            self@.wf(),
        ensures
            r == self@.read_register(0xff18),
    {
        proof {
            reveal(ApuView::read_register);
        }
        self.square2.read_3()
    }

    pub fn nr23_write(&mut self, value: u8)
        requires
            old(self)@.wf(),
        ensures
            final(self)@ == old(self)@.write_register(0xff18, value),
            final(self)@.wf(),
    {
        proof {
            reveal(ApuView::write_register);
        }
        if !self.enable {
            return ;
        }
        self.square2.write_3(value);
    }

    pub fn nr24_read(&self) -> (r: u8)
        requires
            self@.wf(),
        ensures
            r == self@.read_register(0xff19),
    {
        proof {
            reveal(ApuView::read_register);
        }
        self.square2.read_4()
    }

    pub fn nr24_write(&mut self, value: u8)
        requires
            old(self)@.wf(),
        ensures
            final(self)@ == old(self)@.write_register(0xff19, value),
            final(self)@.wf(),
    {
        proof {
            reveal(ApuView::write_register);
        }
        if !self.enable {
            return ;
        }
        self.square2.write_4(value);
    }

    pub fn nr30_read(&self) -> (r: u8)
        requires
            self@.wf(),
        ensures
            r == self@.read_register(0xff1a),
    {
        proof {
            reveal(ApuView::read_register);
        }
        self.wave.read_0()
    }

    pub fn nr30_write(&mut self, value: u8)
        requires
            old(self)@.wf(),
        ensures
            final(self)@ == old(self)@.write_register(0xff1a, value),
            final(self)@.wf(),
    {
        proof {
            reveal(ApuView::write_register);
        }
        if !self.enable {
            return ;
        }
        self.wave.write_0(value);
    }

    pub fn nr31_read(&self) -> (r: u8)
        requires
            self@.wf(),
        ensures
            r == self@.read_register(0xff1b),
    {
        proof {
            reveal(ApuView::read_register);
        }
        self.wave.read_1()
    }

    pub fn nr31_write(&mut self, value: u8)
        requires
            old(self)@.wf(),
        ensures
            final(self)@ == old(self)@.write_register(0xff1b, value),
            final(self)@.wf(),
    {
        proof {
            reveal(ApuView::write_register);
        }
        self.wave.write_1(value);
    }

    pub fn nr32_read(&self) -> (r: u8)
        requires
            self@.wf(),
        ensures
            r == self@.read_register(0xff1c),
    {
        proof {
            reveal(ApuView::read_register);
        }
        self.wave.read_2()
    }

    pub fn nr32_write(&mut self, value: u8)
        requires
            old(self)@.wf(),
        ensures
            final(self)@ == old(self)@.write_register(0xff1c, value),
            final(self)@.wf(),
    {
        proof {
            reveal(ApuView::write_register);
        }
        if !self.enable {
            return ;
        }
        self.wave.write_2(value);
    }

    pub fn nr33_read(&self) -> (r: u8)
        requires
            self@.wf(),
        ensures
            r == self@.read_register(0xff1d),
    {
        proof {
            reveal(ApuView::read_register);
        }
        self.wave.read_3()
    }

    pub fn nr33_write(&mut self, value: u8)
        requires
            old(self)@.wf(),
        ensures
            final(self)@ == old(self)@.write_register(0xff1d, value),
            final(self)@.wf(),
    {
        proof {
            reveal(ApuView::write_register);
        }
        if !self.enable {
            return ;
        }
        self.wave.write_3(value);
    }

    pub fn nr34_read(&self) -> (r: u8)
        requires
            self@.wf(),
        ensures
            r == self@.read_register(0xff1e),
    {
        proof {
            reveal(ApuView::read_register);
        }
        self.wave.read_4()
    }

    pub fn nr34_write(&mut self, value: u8)
        requires
            old(self)@.wf(),
        ensures
            final(self)@ == old(self)@.write_register(0xff1e, value),
            final(self)@.wf(),
    {
        proof {
            reveal(ApuView::write_register);
        }
        if !self.enable {
            return ;
        }
        self.wave.write_4(value);
    }

    pub fn nr40_read(&self) -> (r: u8)
        requires
            self@.wf(),
        ensures
            r == self@.read_register(0xff1f),
    {
        proof {
            reveal(ApuView::read_register);
        }
        0xff
    }

    pub fn nr40_write(&mut self, value: u8)
        requires
            old(self)@.wf(),
        ensures
            final(self)@ == old(self)@.write_register(0xff1f, value),
            final(self)@.wf(),
    {
        proof {
            reveal(ApuView::write_register);
        }
        return ;
    }

    pub fn nr41_read(&self) -> (r: u8)
        requires
            self@.wf(),
        ensures
            r == self@.read_register(0xff20),
    {
        proof {
            reveal(ApuView::read_register);
        }
        self.noise.read_1()
    }

    pub fn nr41_write(&mut self, value: u8)
        requires
            old(self)@.wf(),
        ensures
            final(self)@ == old(self)@.write_register(0xff20, value),
            final(self)@.wf(),
    {
        proof {
            reveal(ApuView::write_register);
        }
        self.noise.write_1(value);
    }

    pub fn nr42_read(&self) -> (r: u8)
        requires
            self@.wf(),
        ensures
            r == self@.read_register(0xff21),
    {
        proof {
            reveal(ApuView::read_register);
        }
        self.noise.read_2()
    }

    pub fn nr42_write(&mut self, value: u8)
        requires
            old(self)@.wf(),
        ensures
            final(self)@ == old(self)@.write_register(0xff21, value),
            final(self)@.wf(),
    {
        proof {
            reveal(ApuView::write_register);
        }
        if !self.enable {
            return ;
        }
        self.noise.write_2(value);
    }

    pub fn nr43_read(&self) -> (r: u8)
        requires
            self@.wf(),
        ensures
            r == self@.read_register(0xff22),
    {
        proof {
            reveal(ApuView::read_register);
        }
        self.noise.read_3()
    }

    pub fn nr43_write(&mut self, value: u8)
        requires
            old(self)@.wf(),
        ensures
            final(self)@ == old(self)@.write_register(0xff22, value),
            final(self)@.wf(),
    {
        proof {
            reveal(ApuView::write_register);
        }
        if !self.enable {
            return ;
        }
        self.noise.write_3(value);
    }

    pub fn nr44_read(&self) -> (r: u8)
        requires
            self@.wf(),
        ensures
            r == self@.read_register(0xff23),
    {
        proof {
            reveal(ApuView::read_register);
        }
        self.noise.read_4()
    }

    pub fn nr44_write(&mut self, value: u8)
        requires
            old(self)@.wf(),
        ensures
            final(self)@ == old(self)@.write_register(0xff23, value),
            final(self)@.wf(),
    {
        proof {
            reveal(ApuView::write_register);
        }
        if !self.enable {
            return ;
        }
        self.noise.write_4(value);
    }

    pub fn nr50_read(&self) -> (r: u8)
        requires
            self@.wf(),
        ensures
            r == self@.read_register(0xff24),
    {
        proof {
            reveal(ApuView::read_register);
        }
        let l_vin: u8 = if self.l_vin { 0x80 } else { 0 };
        let r_vin: u8 = if self.r_vin { 0x08 } else { 0 };
        l_vin + self.l_volume * 16 + r_vin + self.r_volume
    }

    pub fn nr50_write(&mut self, value: u8)
        requires
            old(self)@.wf(),
        ensures
            final(self)@ == old(self)@.write_register(0xff24, value),
            final(self)@.wf(),
    {
        proof {
            reveal(ApuView::write_register);
        }
        if !self.enable {
            return ;
        }
        self.l_vin = (value & 0x80) != 0;
        self.l_volume = (value / 16) % 8;
        self.r_vin = (value & 0x08) != 0;
        self.r_volume = value % 8;
    }

    pub fn nr51_read(&self) -> (r: u8)
        requires
            self@.wf(),
        ensures
            r == self@.read_register(0xff25),
    {
        proof {
            reveal(ApuView::read_register);
        }
        self.l_enable.nibble() * 16 + self.r_enable.nibble()
    }

    pub fn nr51_write(&mut self, value: u8)
        requires
            old(self)@.wf(),
        ensures
            final(self)@ == old(self)@.write_register(0xff25, value),
            final(self)@.wf(),
    {
        proof {
            reveal(ApuView::write_register);
        }
        if !self.enable {
            return ;
        }
        self.l_enable = ChannelMask::from_nibble(value / 16);
        self.r_enable = ChannelMask::from_nibble(value);
    }

    pub fn nr52_read(&self) -> (r: u8)
        requires
            self@.wf(),
        ensures
            r == self@.read_register(0xff26),
    {
        proof {
            reveal(ApuView::read_register);
        }
        let power: u8 = if self.enable { 0x80 } else { 0 };
        let noise: u8 = if self.noise.enabled() { 8 } else { 0 };
        let wave: u8 = if self.wave.enabled() { 4 } else { 0 };
        let square2: u8 = if self.square2.enabled() { 2 } else { 0 };
        let square1: u8 = if self.square1.enabled() { 1 } else { 0 };
        0x70 + power + noise + wave + square2 + square1
    }

    /// The master enable.
    pub fn nr52_write(&mut self, value: u8)
        requires
            old(self)@.wf(),
        ensures
            final(self)@ == old(self)@.write_register(0xff26, value),
            final(self)@.wf(),
    {
        proof {
            reveal(ApuView::write_register);
            reveal(ApuView::power);
        }
        if (value & 0x80) != 0 {
            self.enable = true;
            self.audio_system.resume();
        } else {
            self.power_off();
        }
    }

    fn power_off(&mut self)
        requires
            old(self)@.wf(),
        ensures
            final(self)@ == old(self)@.power(false),
            final(self)@.wf(),
    {
        proof {
            reveal(ApuView::power);
        }
        self.enable = false;
        self.audio_system.pause();
        self.rs_period = 0;
        self.fs_period = 0;
        self.fs_step = 0;
        self.l_volume = 0;
        self.r_volume = 0;
        self.l_vin = false;
        self.r_vin = false;
        self.l_enable = ChannelMask::none();
        self.r_enable = ChannelMask::none();
        self.square1.reset();
        self.square2.reset();
        self.wave.reset();
        self.noise.reset();
    }

    pub fn read_wavetable(&self, address: u16) -> (r: u8)
        requires
            self@.wf(),
            0xff30 <= address < 0xff40,
        ensures
            r == self@.read_register(address),
    {
        proof {
            reveal(ApuView::read_register);
        }
        let index = (address as usize) - 0xff30;
        self.wave.read_wavetable(index)
    }

    pub fn write_wavetable(&mut self, address: u16, value: u8)
        requires
            old(self)@.wf(),
            0xff30 <= address < 0xff40,
        ensures
            final(self)@ == old(self)@.write_register(address, value),
            final(self)@.wf(),
    {
        proof {
            reveal(ApuView::write_register);
        }
        let index = (address as usize) - 0xff30;
        self.wave.write_wavetable(index, value);
    }

    /// A read of any address in 0xff10..0xff40.
    pub fn read_register(&self, address: u16) -> (r: u8)
        requires
            self@.wf(),
            0xff10 <= address < 0xff40,
        ensures
            r == self@.read_register(address),
    {
        proof {
            reveal(ApuView::read_register);
        }
        match address {
            0xff10 => self.nr10_read(),
            0xff11 => self.nr11_read(),
            0xff12 => self.nr12_read(),
            0xff13 => self.nr13_read(),
            0xff14 => self.nr14_read(),
            0xff15 => self.nr20_read(),
            0xff16 => self.nr21_read(),
            0xff17 => self.nr22_read(),
            0xff18 => self.nr23_read(),
            0xff19 => self.nr24_read(),
            0xff1a => self.nr30_read(),
            0xff1b => self.nr31_read(),
            0xff1c => self.nr32_read(),
            0xff1d => self.nr33_read(),
            0xff1e => self.nr34_read(),
            0xff1f => self.nr40_read(),
            0xff20 => self.nr41_read(),
            0xff21 => self.nr42_read(),
            0xff22 => self.nr43_read(),
            0xff23 => self.nr44_read(),
            0xff24 => self.nr50_read(),
            0xff25 => self.nr51_read(),
            0xff26 => self.nr52_read(),
            0xff30..=0xff3f => self.read_wavetable(address),
            _ => 0xff,
        }
    }

    /// A write to any address in 0xff10..0xff40.
    pub fn write_register(&mut self, address: u16, value: u8)
        requires
            old(self)@.wf(),
            0xff10 <= address < 0xff40,
        ensures
            final(self)@ == old(self)@.write_register(address, value),
            final(self)@.wf(),
    {
        proof {
            reveal(ApuView::write_register);
        }
        match address {
            0xff10 => self.nr10_write(value),
            0xff11 => self.nr11_write(value),
            0xff12 => self.nr12_write(value),
            0xff13 => self.nr13_write(value),
            0xff14 => self.nr14_write(value),
            0xff15 => self.nr20_write(value),
            0xff16 => self.nr21_write(value),
            0xff17 => self.nr22_write(value),
            0xff18 => self.nr23_write(value),
            0xff19 => self.nr24_write(value),
            0xff1a => self.nr30_write(value),
            0xff1b => self.nr31_write(value),
            0xff1c => self.nr32_write(value),
            0xff1d => self.nr33_write(value),
            0xff1e => self.nr34_write(value),
            0xff1f => self.nr40_write(value),
            0xff20 => self.nr41_write(value),
            0xff21 => self.nr42_write(value),
            0xff22 => self.nr43_write(value),
            0xff23 => self.nr44_write(value),
            0xff24 => self.nr50_write(value),
            0xff25 => self.nr51_write(value),
            0xff26 => self.nr52_write(value),
            0xff30..=0xff3f => self.write_wavetable(address, value),
            _ => {},
        }
    }
}

} // verus!
