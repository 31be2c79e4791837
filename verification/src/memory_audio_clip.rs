//! An audio clip holding its samples in memory. Its reader is a direct
//! copy out of the buffer: memory-backed readers need no logical/physical
//! position distinction, since slicing is already cheap.

use vstd::prelude::*;

use crate::audio_clip::{duration_nanos, AudioClip, SampleReader};
use crate::audio_error::AudioError;

verus! {

/// An audio clip representing audio samples in memory.
pub struct MemoryAudioClip<T> {
    buffer: Vec<T>,
    sampling_rate: u32,
}

impl<T: Copy> MemoryAudioClip<T> {
    /// A new memory audio clip over a copy of `samples`.
    pub fn new(samples: &[T], sampling_rate: u32) -> (r: Self)
        requires
            sampling_rate >= 1,
        ensures
            r.wf(),
            r.signal() == samples@,
            r.rate() == sampling_rate,
            r.reader_ok(),
    {
        // Establishes that the slice's length fits the machine word.
        let _sample_count: usize = samples.len();
        MemoryAudioClip { buffer: vstd::slice::slice_to_vec(samples), sampling_rate }
    }
}

impl<T: Copy> AudioClip for MemoryAudioClip<T> {
    type Reader = MemorySampleReader<T>;

    closed spec fn wf(&self) -> bool {
        &&& self.sampling_rate >= 1
        &&& self.buffer@.len() <= u64::MAX
    }

    closed spec fn signal(&self) -> Seq<T> {
        self.buffer@
    }

    closed spec fn rate(&self) -> u32 {
        self.sampling_rate
    }

    closed spec fn reader_ok(&self) -> bool {
        true
    }

    proof fn lemma_rate_positive(&self) {
    }

    fn len(&self) -> (r: u64) {
        self.buffer.len() as u64
    }

    fn sampling_rate(&self) -> (r: u32) {
        self.sampling_rate
    }

    fn create_sample_reader(&self) -> (r: Result<Self::Reader, AudioError>) {
        Ok(
            MemorySampleReader {
                buffer: vstd::slice::slice_to_vec(self.buffer.as_slice()),
                position: 0,
            },
        )
    }

    fn duration(&self) -> (r: u64) {
        duration_nanos(self.buffer.len() as u64, self.sampling_rate)
    }

    fn is_empty(&self) -> (r: bool) {
        self.buffer.len() == 0
    }
}

impl<T: Copy> Clone for MemoryAudioClip<T> {
    /// A clone holds the same samples at the same rate.
    fn clone(&self) -> (r: Self)
        ensures
            r.signal() == self.signal(),
            r.rate() == self.rate(),
            self.wf() ==> r.wf(),
    {
        MemoryAudioClip {
            buffer: vstd::slice::slice_to_vec(self.buffer.as_slice()),
            sampling_rate: self.sampling_rate,
        }
    }
}

/// A stateful cursor over one memory audio clip.
pub struct MemorySampleReader<T> {
    buffer: Vec<T>,
    position: u64,
}

impl<T: Copy> SampleReader for MemorySampleReader<T> {
    type Item = T;

    closed spec fn wf(&self) -> bool {
        &&& self.position <= self.buffer@.len()
        &&& self.buffer@.len() <= u64::MAX
    }

    closed spec fn signal(&self) -> Seq<T> {
        self.buffer@
    }

    closed spec fn cur(&self) -> int {
        self.position as int
    }

    closed spec fn read_ok(&self, n: int) -> bool {
        true
    }

    closed spec fn after_seek(&self, p: int) -> Self {
        MemorySampleReader { buffer: self.buffer, position: p as u64 }
    }

    proof fn lemma_wf_bounds(&self) {
    }

    proof fn lemma_after_seek(&self, p: int) {
    }

    proof fn lemma_seek_collapses(&self, p: int, q: int) {
    }

    proof fn lemma_read_ok_zero(&self) {
    }

    fn len(&self) -> (r: u64) {
        self.buffer.len() as u64
    }

    fn position(&self) -> (r: u64) {
        self.position
    }

    fn set_position(&mut self, position: u64) {
        self.position = position;
    }

    fn read(&mut self, frame_count: usize) -> (r: Result<Vec<Self::Item>, AudioError>) {
        let buffer_len = self.buffer.len();
        let start = self.position as usize;
        let mut out: Vec<T> = Vec::new();
        let mut i: usize = 0;
        while i < frame_count
            invariant
                i <= frame_count,
                out@.len() == i,
                start == self.position,
                buffer_len == self.buffer@.len(),
                start + frame_count <= buffer_len,
                self.position + frame_count <= self.buffer@.len(),
                out@ == self.buffer@.subrange(start as int, start + i),
            decreases frame_count - i,
        {
            out.push(self.buffer[start + i]);
            i = i + 1;
            proof {
                assert(out@ =~= self.buffer@.subrange(start as int, start + i));
            }
        }
        self.position = self.position + frame_count as u64;
        Ok(out)
    }

    fn is_empty(&self) -> (r: bool) {
        self.buffer.len() == 0
    }

    fn remainder(&self) -> (r: u64) {
        self.buffer.len() as u64 - self.position
    }
}

/// Round trip: a fresh reader over a memory clip reads back, over its full
/// length, exactly the sequence the clip was constructed from — what `read`
/// returns is `signal().subrange(0, len)`, and that is the clip's signal
/// unchanged.
pub proof fn lemma_memory_round_trip<T: Copy>(
    clip: MemoryAudioClip<T>,
    reader: MemorySampleReader<T>,
)
    requires
        clip.wf(),
        reader.wf(),
        reader.signal() == clip.signal(),
        reader.cur() == 0,
    ensures
        reader.signal().subrange(0, reader.signal().len() as int) == clip.signal(),
{
    assert(reader.signal().subrange(0, reader.signal().len() as int) =~= clip.signal());
}

} // verus!
