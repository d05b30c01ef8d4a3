//! A queue of fixed-duration chunks, filled from bursts of any size and
//! emptied at the consumer's pace.

use crate::audio::chunks::{
    chunk_at, chunk_count, chunks_of, flattened, lemma_chunk_step, lemma_no_samples_no_chunks,
};
use std::collections::VecDeque;
use vstd::prelude::*;
use vstd::slice::{slice_subrange, slice_to_vec};

verus! {

/// Number of samples in a queue.
pub open spec fn total_len(queue: Seq<Seq<i16>>) -> nat {
    flattened(queue).len()
}

/// A tenth of a second of samples at `sample_rate`.
pub open spec fn chunk_size_for(sample_rate: u32) -> nat {
    (sample_rate / 10) as nat
}

/// First-in, first-out queue of chunks of a tenth of a second each.
pub struct AudioStreamer {
    buffer: VecDeque<Vec<i16>>,
    chunk_size: usize,
    sample_rate: u32,
}

impl View for AudioStreamer {
    type V = Seq<Seq<i16>>;

    /// The queued chunks, oldest first.
    closed spec fn view(&self) -> Seq<Seq<i16>> {
        self.buffer@.map_values(|chunk: Vec<i16>| chunk@)
    }
}

impl AudioStreamer {
    /// The rate fixed at construction.
    pub closed spec fn spec_sample_rate(&self) -> u32 {
        self.sample_rate
    }

    /// The streamer's invariant: its chunk size is a tenth of its rate.
    pub closed spec fn wf(&self) -> bool {
        self.chunk_size == chunk_size_for(self.sample_rate)
    }

    /// Samples per chunk.
    pub open spec fn chunk_size(&self) -> nat {
        chunk_size_for(self.spec_sample_rate())
    }

    /// An empty queue for audio at `sample_rate`.
    pub fn new(sample_rate: u32) -> (streamer: Self)
        ensures
            streamer.wf(),
            streamer@ == Seq::<Seq<i16>>::empty(),
            streamer.spec_sample_rate() == sample_rate,
    {
        let streamer = AudioStreamer {
            buffer: VecDeque::new(),
            chunk_size: (sample_rate / 10) as usize,
            sample_rate,
        };
        proof {
            assert(streamer@ =~= Seq::<Seq<i16>>::empty());
        }
        streamer
    }

    /// Queues `samples`, cut into successive chunks of the fixed size; what
    /// is left at the end is queued as it is.
    pub fn push(&mut self, samples: &[i16])
        requires
            old(self).wf(),
            old(self).chunk_size() > 0,
        ensures
            final(self).wf(),
            final(self).spec_sample_rate() == old(self).spec_sample_rate(),
            final(self)@ == old(self)@ + chunks_of(samples@, old(self).chunk_size()),
    {
        let len: usize = samples.len();
        let size: usize = self.chunk_size;
        let ghost before = self@;
        let mut start: usize = 0;
        proof {
            assert(0 * size == 0) by (nonlinear_arith);
            lemma_no_samples_no_chunks(size as nat);
            assert(before + chunks_of(samples@, size as nat).take(0) =~= before);
        }
        let ghost mut done: int = 0;
        while start < len
            invariant
                size > 0,
                size == self.chunk_size,
                self.sample_rate == old(self).sample_rate,
                self.wf(),
                len == samples@.len(),
                start <= len,
                0 <= done <= chunk_count(len as nat, size as nat),
                start < len ==> start == done * size,
                start == len ==> done == chunk_count(len as nat, size as nat),
                self@ == before + chunks_of(samples@, size as nat).take(done),
            decreases len - start,
        {
            let end: usize = if len - start >= size {
                start + size
            } else {
                len
            };
            let chunk: Vec<i16> = slice_to_vec(slice_subrange(samples, start, end));
            let ghost queued = self@;
            self.buffer.push_back(chunk);
            proof {
                assert((done + 1) * size == done * size + size) by (nonlinear_arith);
                lemma_chunk_step(len as nat, size as nat, done, end as int);
                assert(chunk@ == chunk_at(samples@, size as nat, done));
                assert(self@ =~= queued.push(chunk@));
                assert(chunks_of(samples@, size as nat).take(done + 1) =~= chunks_of(
                    samples@,
                    size as nat,
                ).take(done).push(chunk@));
                done = done + 1;
            }
            start = end;
        }
        proof {
            let all = chunks_of(samples@, size as nat);
            assert(all.take(all.len() as int) =~= all);
        }
    }

    /// Takes the oldest chunk out of the queue.
    pub fn pop(&mut self) -> (chunk: Option<Vec<i16>>)
        requires
            old(self).wf(),
        ensures
            final(self).wf(),
            final(self).spec_sample_rate() == old(self).spec_sample_rate(),
            old(self)@.len() == 0 ==> chunk is None && final(self)@ == old(self)@,
            old(self)@.len() > 0 ==> (chunk matches Some(c) && c@ == old(self)@[0] && final(self)@
                == old(self)@.drop_first()),
    {
        let chunk = self.buffer.pop_front();
        proof {
            if chunk is Some {
                assert(self@ =~= old(self)@.drop_first());
            }
        }
        chunk
    }

    /// Takes every chunk out of the queue and joins them in order.
    pub fn drain(&mut self) -> (samples: Vec<i16>)
        requires
            old(self).wf(),
        ensures
            final(self).wf(),
            final(self).spec_sample_rate() == old(self).spec_sample_rate(),
            samples@ == flattened(old(self)@),
            final(self)@ == Seq::<Seq<i16>>::empty(),
    {
        let mut samples: Vec<i16> = Vec::new();
        loop
            invariant
                self.wf(),
                self.sample_rate == old(self).sample_rate,
                samples@ + flattened(self@) == flattened(old(self)@),
            ensures
                self.wf(),
                self.sample_rate == old(self).sample_rate,
                samples@ == flattened(old(self)@),
                self@ == Seq::<Seq<i16>>::empty(),
            decreases self@.len(),
        {
            let ghost queued = self@;
            let ghost joined = samples@;
            match self.buffer.pop_front() {
                Some(chunk) => {
                    samples.extend_from_slice(chunk.as_slice());
                    proof {
                        assert(self@ =~= queued.drop_first());
                        assert(chunk@ == queued[0]);
                        assert(samples@ + flattened(self@) =~= joined + (queued[0] + flattened(
                            queued.drop_first(),
                        )));
                    }
                },
                None => {
                    proof {
                        assert(self@ =~= Seq::<Seq<i16>>::empty());
                        assert(samples@ + flattened(self@) =~= samples@);
                    }
                    break ;
                },
            }
        }
        samples
    }

    /// Discards every queued chunk.
    pub fn clear(&mut self)
        requires
            old(self).wf(),
        ensures
            final(self).wf(),
            final(self).spec_sample_rate() == old(self).spec_sample_rate(),
            final(self)@ == Seq::<Seq<i16>>::empty(),
    {
        self.buffer.clear();
        proof {
            assert(self@ =~= Seq::<Seq<i16>>::empty());
        }
    }

    /// Whether no chunk is queued.
    pub fn is_empty(&self) -> (empty: bool)
        ensures
            empty == (self@.len() == 0),
    {
        self.buffer.len() == 0
    }

    /// Number of queued chunks.
    pub fn len(&self) -> (n: usize)
        ensures
            n == self@.len(),
    {
        self.buffer.len()
    }

    /// Number of queued samples, over all chunks.
    pub fn total_samples(&self) -> (total: u128)
        ensures
            total == total_len(self@),
    {
        let count: usize = self.buffer.len();
        let mut total: u128 = 0;
        let mut i: usize = count;
        proof {
            assert(self@.skip(count as int) =~= Seq::<Seq<i16>>::empty());
        }
        while i > 0
            invariant
                count == self@.len(),
                count == self.buffer@.len(),
                i <= count,
                total == total_len(self@.skip(i as int)),
                total <= (count - i) * 0xffff_ffff_ffff_ffff,
            decreases i,
        {
            i -= 1;
            let size: usize = self.buffer[i].len();
            proof {
                let rest = self@.skip(i as int);
                assert(rest[0] == self.buffer@[i as int]@);
                assert(rest.drop_first() =~= self@.skip(i as int + 1));
            }
            total = total + size as u128;
        }
        proof {
            assert(self@.skip(0) =~= self@);
        }
        total
    }

    /// The rate fixed at construction.
    pub fn sample_rate(&self) -> (rate: u32)
        ensures
            rate == self.spec_sample_rate(),
    {
        self.sample_rate
    }
}

impl Default for AudioStreamer {
    /// An empty queue at the pipeline's canonical rate.
    fn default() -> (streamer: Self)
        ensures
            streamer.wf(),
            streamer@ == Seq::<Seq<i16>>::empty(),
            streamer.spec_sample_rate() == 16000,
    {
        AudioStreamer::new(16000)
    }
}

} // verus!
