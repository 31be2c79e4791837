//! The capability contracts every audio source and every derived view
//! satisfy: a source knows its length and sampling rate before any sample is
//! read, and hands out independent stateful readers; a reader tracks one
//! position, which only an explicit seek or a read advances.

use vstd::prelude::*;

use crate::audio_error::AudioError;

verus! {

/// The duration, in nanoseconds, of `len` frames at `rate` frames per
/// second.
pub open spec fn duration_nanos_spec(len: u64, rate: u32) -> int {
    len * 1_000_000_000 / (rate as int)
}

/// The duration of `len` frames at `rate` frames per second, in
/// nanoseconds, computed in wide arithmetic so that no intermediate result
/// overflows.
pub fn duration_nanos(len: u64, rate: u32) -> (r: u64)
    requires
        1 <= rate,
        duration_nanos_spec(len, rate) <= u64::MAX,
    ensures
        r == duration_nanos_spec(len, rate),
{
    proof {
        assert((len as u128) * 1_000_000_000 < 0x1_0000_0000_0000_0000_0000_0000u128)
            by (nonlinear_arith)
            requires
                len <= 0xFFFF_FFFF_FFFF_FFFFu64,
        ;
    }
    let wide: u128 = (len as u128) * 1_000_000_000u128 / (rate as u128);
    wide as u64
}

/// An audio clip containing monaural sampled audio of fixed, known length
/// and sampling rate. Implementations may keep the audio in memory or read
/// it on the fly; independent readers over one clip do not share state.
pub trait AudioClip: Sized {
    /// The reader type this clip hands out.
    type Reader: SampleReader;

    /// The clip's internal invariant.
    spec fn wf(&self) -> bool;

    /// The clip's audio signal, one value per frame.
    spec fn signal(&self) -> Seq<<Self::Reader as SampleReader>::Item>;

    /// The sampling rate, in frames per second.
    spec fn rate(&self) -> u32;

    /// Whether `create_sample_reader` is owed success.
    spec fn reader_ok(&self) -> bool;

    /// A well-formed clip has a positive sampling rate.
    proof fn lemma_rate_positive(&self)
        requires
            self.wf(),
        ensures
            self.rate() >= 1,
    ;

    /// The number of audio frames in the audio clip.
    fn len(&self) -> (r: u64)
        requires
            self.wf(),
        ensures
            r == self.signal().len(),
    ;

    /// The sampling rate in frames per second.
    fn sampling_rate(&self) -> (r: u32)
        requires
            self.wf(),
        ensures
            r == self.rate(),
            r >= 1,
    ;

    /// Creates a new, independent sample reader positioned at frame 0.
    fn create_sample_reader(&self) -> (r: Result<Self::Reader, AudioError>)
        requires
            self.wf(),
        ensures
            (r is Ok) == self.reader_ok(),
            (r matches Ok(reader) ==> reader.wf() && reader.signal() == self.signal()
                && reader.cur() == 0),
    ;

    /// The duration of this audio clip in nanoseconds.
    fn duration(&self) -> (r: u64)
        requires
            self.wf(),
            duration_nanos_spec(self.signal().len() as u64, self.rate()) <= u64::MAX,
            self.signal().len() <= u64::MAX,
        ensures
            r == duration_nanos_spec(self.signal().len() as u64, self.rate()),
    ;

    /// Whether this audio clip contains zero frames.
    fn is_empty(&self) -> (r: bool)
        requires
            self.wf(),
        ensures
            r == (self.signal().len() == 0),
    ;
}

/// A stateful cursor over exactly one audio clip: it allows seeking within
/// the clip and reading its samples. Valid positions run from 0 to the
/// clip's length inclusive; a read must fit entirely before the end.
pub trait SampleReader: Sized {
    /// The type of one sample.
    type Item;

    /// The reader's internal invariant.
    spec fn wf(&self) -> bool;

    /// The signal this reader reads, one value per frame.
    spec fn signal(&self) -> Seq<Self::Item>;

    /// The current logical position, in frames.
    spec fn cur(&self) -> int;

    /// Whether a read of `n` frames from the current position is owed
    /// success.
    spec fn read_ok(&self, n: int) -> bool;

    /// The reader's state after a seek to `p`: seeking is cheap and only
    /// records the position, so it is a pure state transition.
    spec fn after_seek(&self, p: int) -> Self;

    /// The position of a well-formed reader lies between 0 and the signal's
    /// length.
    proof fn lemma_wf_bounds(&self)
        requires
            self.wf(),
        ensures
            0 <= self.cur() <= self.signal().len(),
    ;

    /// Seeking preserves the invariant and the signal and moves the
    /// position.
    proof fn lemma_after_seek(&self, p: int)
        requires
            self.wf(),
            0 <= p <= self.signal().len(),
        ensures
            self.after_seek(p).wf(),
            self.after_seek(p).signal() == self.signal(),
            self.after_seek(p).cur() == p,
    ;

    /// Of several consecutive seeks, only the last one matters: seeks
    /// collapse.
    proof fn lemma_seek_collapses(&self, p: int, q: int)
        requires
            self.wf(),
            0 <= p <= self.signal().len(),
            0 <= q <= self.signal().len(),
        ensures
            self.after_seek(p).after_seek(q) == self.after_seek(q),
    ;

    /// A read of zero frames is always owed success.
    proof fn lemma_read_ok_zero(&self)
        requires
            self.wf(),
        ensures
            self.read_ok(0),
    ;

    /// The number of audio frames in the associated audio clip.
    fn len(&self) -> (r: u64)
        requires
            self.wf(),
        ensures
            r == self.signal().len(),
    ;

    /// The current read position in frames.
    fn position(&self) -> (r: u64)
        requires
            self.wf(),
        ensures
            r == self.cur(),
    ;

    /// Seeks to the specified position in frames. Seeking performs no
    /// time-consuming work, so a derived view may seek its inner reader
    /// unconditionally.
    fn set_position(&mut self, position: u64)
        requires
            old(self).wf(),
            position <= old(self).signal().len(),
        ensures
            *final(self) == old(self).after_seek(position as int),
            final(self).wf(),
            final(self).signal() == old(self).signal(),
            final(self).cur() == position,
    ;

    /// Reads the next `frame_count` samples, advancing the position past
    /// them. The caller must not ask for more samples than are left before
    /// the end of the clip.
    fn read(&mut self, frame_count: usize) -> (r: Result<Vec<Self::Item>, AudioError>)
        requires
            old(self).wf(),
            old(self).cur() + frame_count <= old(self).signal().len(),
        ensures
            final(self).wf(),
            final(self).signal() == old(self).signal(),
            (r is Ok) == old(self).read_ok(frame_count as int),
            (r matches Ok(v) ==> v@ == old(self).signal().subrange(
                old(self).cur(),
                old(self).cur() + frame_count,
            ) && final(self).cur() == old(self).cur() + frame_count),
            (r is Err ==> final(self).cur() == old(self).cur()),
    ;

    /// Whether the associated audio clip contains zero frames.
    fn is_empty(&self) -> (r: bool)
        requires
            self.wf(),
        ensures
            r == (self.signal().len() == 0),
    ;

    /// The number of samples left before the end of the audio clip.
    fn remainder(&self) -> (r: u64)
        requires
            self.wf(),
        ensures
            r == self.signal().len() - self.cur(),
    ;
}

} // verus!
