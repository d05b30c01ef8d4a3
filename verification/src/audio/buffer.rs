//! Session-scoped accumulation of captured samples.

use vstd::prelude::*;

verus! {

/// Canonical sample rate of the pipeline, in hertz.
pub const CANONICAL_SAMPLE_RATE: u32 = 16000;

/// One burst of captured audio, already mono and at the pipeline's rate.
#[derive(Debug, Clone)]
pub struct AudioChunk {
    pub samples: Vec<i16>,
    pub sample_rate: u32,
}

/// Seconds of audio that a new buffer has room for without growing.
pub const HEADROOM_SECONDS: u64 = 30;

/// An empty list of samples with room for `capacity` of them. More than a
/// quarter of the address space is never asked for: no allocator grants it,
/// and the list then grows as it is filled.
pub(crate) fn with_headroom(capacity: u128) -> (samples: Vec<i16>)
    ensures
        samples@ == Seq::<i16>::empty(),
{
    if capacity <= (usize::MAX / 4) as u128 {
        Vec::with_capacity(capacity as usize)
    } else {
        Vec::new()
    }
}

/// Growable store of mono samples recorded at one fixed sample rate.
pub struct AudioBuffer {
    samples: Vec<i16>,
    sample_rate: u32,
}

impl View for AudioBuffer {
    type V = Seq<i16>;

    closed spec fn view(&self) -> Seq<i16> {
        self.samples@
    }
}

impl AudioBuffer {
    /// The rate fixed at construction.
    pub closed spec fn spec_sample_rate(&self) -> u32 {
        self.sample_rate
    }

    /// An empty buffer for samples at `sample_rate`, with room for half a
    /// minute of them, so that appending in the capture callback does not
    /// have to grow it.
    pub fn new(sample_rate: u32) -> (buffer: Self)
        ensures
            buffer@ == Seq::<i16>::empty(),
            buffer.spec_sample_rate() == sample_rate,
    {
        let capacity: u64 = sample_rate as u64 * HEADROOM_SECONDS;
        AudioBuffer { samples: with_headroom(capacity as u128), sample_rate }
    }

    /// Appends `samples` after what is already stored.
    pub fn push(&mut self, samples: &[i16])
        ensures
            final(self)@ == old(self)@ + samples@,
            final(self).spec_sample_rate() == old(self).spec_sample_rate(),
    {
        self.samples.extend_from_slice(samples);
    }

    /// Discards every stored sample.
    pub fn clear(&mut self)
        ensures
            final(self)@ == Seq::<i16>::empty(),
            final(self).spec_sample_rate() == old(self).spec_sample_rate(),
    {
        self.samples.clear();
    }

    /// The stored samples, oldest first.
    pub fn get_samples(&self) -> (samples: &[i16])
        ensures
            samples@ == self@,
    {
        self.samples.as_slice()
    }

    /// Hands out the stored samples and leaves the buffer empty.
    pub fn take_samples(&mut self) -> (samples: Vec<i16>)
        ensures
            samples@ == old(self)@,
            final(self)@ == Seq::<i16>::empty(),
            final(self).spec_sample_rate() == old(self).spec_sample_rate(),
    {
        let mut taken: Vec<i16> = Vec::new();
        std::mem::swap(&mut self.samples, &mut taken);
        taken
    }

    /// The rate fixed at construction.
    pub fn sample_rate(&self) -> (rate: u32)
        ensures
            rate == self.spec_sample_rate(),
    {
        self.sample_rate
    }

    /// Number of stored samples.
    pub fn len(&self) -> (n: usize)
        ensures
            n == self@.len(),
    {
        self.samples.len()
    }
}

} // verus!
