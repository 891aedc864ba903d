//! The audio sink's buffer: samples collect until a batch is full, and full
//! batches wait for the host to queue them on its audio device.

use vstd::prelude::*;

verus! {

pub const SPEC_SAMPLE_RATE: i32 = 44100;

pub const SPEC_CHANNELS: u8 = 2;

/// Samples in one batch.
pub const SPEC_SAMPLES: u16 = 4096;

/// The sink as data.
pub struct AudioSystemView {
    /// The samples of the batch that is being filled.
    pub buffer: Seq<i16>,
    /// The samples of the full batches that the host has not taken yet.
    pub queued: Seq<i16>,
    pub paused: bool,
}

impl AudioSystemView {
    pub open spec fn init() -> AudioSystemView {
        AudioSystemView { buffer: Seq::empty(), queued: Seq::empty(), paused: true }
    }

    /// Pausing drops the batch that is being filled.
    pub open spec fn pause(self) -> AudioSystemView {
        AudioSystemView { buffer: Seq::empty(), paused: true, ..self }
    }

    pub open spec fn resume(self) -> AudioSystemView {
        AudioSystemView { paused: false, ..self }
    }

    /// While playing, the samples join the batch in their order, and a batch
    /// that reaches `SPEC_SAMPLES` samples hands on its first `SPEC_SAMPLES`
    /// and starts empty. While paused, they are dropped.
    pub open spec fn add_samples(self, samples: Seq<i16>) -> AudioSystemView {
        let filled = self.buffer + samples;
        if self.paused {
            self
        } else if filled.len() >= SPEC_SAMPLES {
            AudioSystemView {
                buffer: Seq::empty(),
                queued: self.queued + filled.subrange(0, SPEC_SAMPLES as int),
                ..self
            }
        } else {
            AudioSystemView { buffer: filled, ..self }
        }
    }

    pub open spec fn take_queued(self) -> AudioSystemView {
        AudioSystemView { queued: Seq::empty(), ..self }
    }
}

pub struct AudioSystem {
    buffer: Vec<i16>,
    queued: Vec<i16>,
    paused: bool,
}

impl View for AudioSystem {
    type V = AudioSystemView;

    closed spec fn view(&self) -> AudioSystemView {
        AudioSystemView { buffer: self.buffer@, queued: self.queued@, paused: self.paused }
    }
}

impl AudioSystem {
    pub fn new() -> (r: AudioSystem)
        ensures
            r@ == AudioSystemView::init(),
    {
        AudioSystem { buffer: Vec::new(), queued: Vec::new(), paused: true }
    }

    pub fn pause(&mut self)
        ensures
            final(self)@ == old(self)@.pause(),
    {
        self.buffer.clear();
        self.paused = true;
    }

    pub fn resume(&mut self)
        ensures
            final(self)@ == old(self)@.resume(),
    {
        self.paused = false;
    }

    pub fn is_paused(&self) -> (r: bool)
        ensures
            r == self@.paused,
    {
        self.paused
    }

    pub fn add_samples(&mut self, samples: &[i16])
        ensures
            final(self)@ == old(self)@.add_samples(samples@),
    {
        if self.paused {
            return ;
        }
        let mut i: usize = 0;
        while i < samples.len()
            invariant
                i <= samples@.len(),
                self@.queued == old(self)@.queued,
                self@.paused == old(self)@.paused,
                self@.buffer == old(self)@.buffer + samples@.subrange(0, i as int),
            decreases samples@.len() - i,
        {
            self.buffer.push(samples[i]);
            i += 1;
            assert(self@.buffer =~= old(self)@.buffer + samples@.subrange(0, i as int));
        }
        assert(samples@.subrange(0, i as int) =~= samples@);
        if self.buffer.len() >= SPEC_SAMPLES as usize {
            let ghost filled = self@.buffer;
            let mut k: usize = 0;
            while k < SPEC_SAMPLES as usize
                invariant
                    k <= SPEC_SAMPLES,
                    self@.buffer == filled,
                    filled.len() >= SPEC_SAMPLES,
                    self@.paused == old(self)@.paused,
                    self@.queued == old(self)@.queued + filled.subrange(0, k as int),
                decreases SPEC_SAMPLES - k,
            {
                self.queued.push(self.buffer[k]);
                k += 1;
                assert(self@.queued =~= old(self)@.queued + filled.subrange(0, k as int));
            }
            self.buffer.clear();
        }
    }

    /// Hands the full batches to the host, oldest sample first.
    pub fn take_queued(&mut self) -> (r: Vec<i16>)
        ensures
            r@ == old(self)@.queued,
            final(self)@ == old(self)@.take_queued(),
    {
        let mut out: Vec<i16> = Vec::new();
        out.append(&mut self.queued);
        assert(out@ =~= old(self)@.queued);
        out
    }
}

} // verus!
