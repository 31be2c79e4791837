//! A resampled representation of another audio clip. The sample-rate
//! conversion itself is the external resample engine's work, pulled
//! through a callback; what the library verifies is the view's own logic:
//! its length (the inner length scaled by the rate ratio, rounded), the
//! seek-deferral protocol, the pull-callback's reads from the inner
//! reader, and the bookkeeping the engine loop relies on.

use vstd::prelude::*;
use vstd::string::StringExecFns;

use crate::audio_clip::{duration_nanos, AudioClip, SampleReader};
use crate::audio_error::AudioError;
use crate::text::{decimal_string, decimal_text};

verus! {

/// The number of frames the pull callback hands the resample engine at
/// most in one call.
pub const INPUT_BUFFER_SIZE: usize = 500;

/// `count * target_rate / inner_rate`, rounded half away from zero: the
/// frame count of the resampled view, and the inner frame a view position
/// maps back to.
pub open spec fn scaled_count_spec(count: u64, numerator: u32, denominator: u32) -> int {
    (2 * count * numerator + denominator) / (2 * denominator)
}

/// Computes `count * numerator / denominator`, rounded half away from
/// zero, in wide arithmetic so that no intermediate result overflows.
pub fn scaled_count(count: u64, numerator: u32, denominator: u32) -> (r: u64)
    requires
        denominator >= 1,
        scaled_count_spec(count, numerator, denominator) <= u64::MAX,
    ensures
        r == scaled_count_spec(count, numerator, denominator),
{
    proof {
        assert(2 * (count as int) * (numerator as int) + denominator
            < 0x4_0000_0000_0000_0000_0000_0000u128) by (nonlinear_arith)
            requires
                count <= 0xFFFF_FFFF_FFFF_FFFFu64,
                numerator <= 0xFFFF_FFFFu32,
                denominator <= 0xFFFF_FFFFu32,
        ;
    }
    let wide: u128 = (2u128 * (count as u128) * (numerator as u128) + (denominator as u128)) / (
    2u128 * (denominator as u128));
    wide as u64
}

/// The abort message for a resample engine that delivered fewer output
/// frames than the zero-fill policy guarantees it can.
pub open spec fn short_read_text(expected: usize, got: usize) -> Seq<char> {
    "Expected "@ + decimal_text(expected as nat) + " samples, got "@ + decimal_text(got as nat)
        + "."@
}

/// Checks the engine's delivery against the requested output frame count:
/// `None` exactly when the full count was delivered, else the message with
/// which the read must abort — a short result with no engine error is an
/// internal-consistency violation, since zero-filling the pull buffer lets
/// the engine always reach its target count.
pub fn check_delivered(expected: usize, got: usize) -> (r: Option<String>)
    ensures
        (r is None) == (got >= expected),
        (r matches Some(m) ==> m@ == short_read_text(expected, got)),
{
    if got >= expected {
        None
    } else {
        let mut msg = "Expected ".to_owned();
        msg.append(decimal_string(expected as u64).as_str());
        msg.append(" samples, got ");
        msg.append(decimal_string(got as u64).as_str());
        msg.append(".");
        proof {
            assert(msg@ =~= short_read_text(expected, got));
        }
        Some(msg)
    }
}

/// The interpolation quality settings the resample engine offers.
#[derive(Debug, Copy, Clone, PartialEq, Eq, Structural)]
pub enum ConverterType {
    /// Band-limited sinc interpolation, best quality.
    SincBestQuality,
    /// Band-limited sinc interpolation, medium quality.
    SincMediumQuality,
    /// Band-limited sinc interpolation, fastest.
    SincFastest,
    /// Zero order hold interpolation, very fast, poor quality.
    ZeroOrderHold,
    /// Linear interpolation, fastest, poor quality.
    Linear,
}

/// The numeric identifier the resample engine uses for each converter.
pub open spec fn converter_code_spec(c: ConverterType) -> i32 {
    match c {
        ConverterType::SincBestQuality => 0i32,
        ConverterType::SincMediumQuality => 1i32,
        ConverterType::SincFastest => 2i32,
        ConverterType::ZeroOrderHold => 3i32,
        ConverterType::Linear => 4i32,
    }
}

impl ConverterType {
    /// The numeric identifier the resample engine uses for this converter.
    pub fn code(&self) -> (r: i32)
        ensures
            r == converter_code_spec(*self),
    {
        match self {
            ConverterType::SincBestQuality => 0,
            ConverterType::SincMediumQuality => 1,
            ConverterType::SincFastest => 2,
            ConverterType::ZeroOrderHold => 3,
            ConverterType::Linear => 4,
        }
    }
}

/// A resampled representation of another audio clip.
pub struct ResampledAudioClip<C: AudioClip> {
    inner_clip: C,
    sampling_rate: u32,
}

impl<C: AudioClip> ResampledAudioClip<C> {
    /// The target sampling rate.
    pub closed spec fn rate_spec(&self) -> u32 {
        self.sampling_rate
    }

    /// The inner clip.
    pub closed spec fn inner_spec(&self) -> C {
        self.inner_clip
    }

    /// The clip's invariant.
    pub closed spec fn wf(&self) -> bool {
        &&& self.inner_clip.wf()
        &&& self.sampling_rate >= 1
        &&& self.inner_clip.signal().len() <= u64::MAX
        &&& scaled_count_spec(
            self.inner_clip.signal().len() as u64,
            self.sampling_rate,
            self.inner_clip.rate(),
        ) <= u64::MAX
    }

    /// A new clip resampling `inner_clip` to `sampling_rate`.
    pub fn new(inner_clip: C, sampling_rate: u32) -> (r: Self)
        requires
            inner_clip.wf(),
            sampling_rate >= 1,
            inner_clip.signal().len() <= u64::MAX,
            scaled_count_spec(
                inner_clip.signal().len() as u64,
                sampling_rate,
                inner_clip.rate(),
            ) <= u64::MAX,
        ensures
            r.wf(),
            r.inner_spec() == inner_clip,
            r.rate_spec() == sampling_rate,
    {
        ResampledAudioClip { inner_clip, sampling_rate }
    }

    /// The number of audio frames in the audio clip: the inner length
    /// scaled by the ratio of the sampling rates, rounded.
    pub fn len(&self) -> (r: u64)
        requires
            self.wf(),
        ensures
            r == scaled_count_spec(
                self.inner_spec().signal().len() as u64,
                self.rate_spec(),
                self.inner_spec().rate(),
            ),
    {
        proof {
            self.inner_clip.lemma_rate_positive();
        }
        scaled_count(self.inner_clip.len(), self.sampling_rate, self.inner_clip.sampling_rate())
    }

    /// The sampling rate in frames per second.
    pub fn sampling_rate(&self) -> (r: u32)
        requires
            self.wf(),
        ensures
            r == self.rate_spec(),
            r >= 1,
    {
        self.sampling_rate
    }

    /// The duration of this audio clip in nanoseconds.
    pub fn duration(&self) -> (r: u64)
        requires
            self.wf(),
            crate::audio_clip::duration_nanos_spec(
                scaled_count_spec(
                    self.inner_spec().signal().len() as u64,
                    self.rate_spec(),
                    self.inner_spec().rate(),
                ) as u64,
                self.rate_spec(),
            ) <= u64::MAX,
        ensures
            r == crate::audio_clip::duration_nanos_spec(
                scaled_count_spec(
                    self.inner_spec().signal().len() as u64,
                    self.rate_spec(),
                    self.inner_spec().rate(),
                ) as u64,
                self.rate_spec(),
            ),
    {
        duration_nanos(self.len(), self.sampling_rate)
    }

    /// Whether this audio clip contains zero frames.
    pub fn is_empty(&self) -> (r: bool)
        requires
            self.wf(),
        ensures
            r == (scaled_count_spec(
                self.inner_spec().signal().len() as u64,
                self.rate_spec(),
                self.inner_spec().rate(),
            ) == 0),
    {
        self.len() == 0
    }

    /// A new, independent reader over this clip, positioned at frame 0.
    /// The caller creates its own resample-engine session for the reader;
    /// the reader holds the verified inner reader and all control state.
    pub fn create_sample_reader(&self) -> (r: Result<ResampledSampleReader<C::Reader>, AudioError>)
        requires
            self.wf(),
        ensures
            (r is Ok) == self.inner_spec().reader_ok(),
            (r matches Ok(reader) ==> reader.wf() && reader.cur() == 0 && reader.len_spec()
                == scaled_count_spec(
                self.inner_spec().signal().len() as u64,
                self.rate_spec(),
                self.inner_spec().rate(),
            )),
    {
        let inner_sample_reader = match self.inner_clip.create_sample_reader() {
            Ok(reader) => reader,
            Err(e) => {
                return Err(e);
            },
        };
        let len = self.len();
        proof {
            self.inner_clip.lemma_rate_positive();
        }
        Ok(
            ResampledSampleReader {
                inner_sample_reader,
                inner_rate: self.inner_clip.sampling_rate(),
                target_rate: self.sampling_rate,
                len,
                position: 0,
                position_changed: false,
            },
        )
    }
}

/// A stateful cursor over one resampled clip. The resample engine's
/// session and the float buffers live at the boundary; this state holds
/// the verified inner reader, the deferred-seek state, and the view's
/// position tracking.
pub struct ResampledSampleReader<R: SampleReader> {
    inner_sample_reader: R,
    inner_rate: u32,
    target_rate: u32,
    len: u64,
    position: u64,
    position_changed: bool,
}

impl<R: SampleReader> ResampledSampleReader<R> {
    /// The inner reader the pull callback reads from.
    pub closed spec fn inner_spec(&self) -> R {
        self.inner_sample_reader
    }

    /// The inner clip's sampling rate.
    pub closed spec fn inner_rate_spec(&self) -> u32 {
        self.inner_rate
    }

    /// The target sampling rate.
    pub closed spec fn target_rate_spec(&self) -> u32 {
        self.target_rate
    }

    /// The view's length, in frames.
    pub closed spec fn len_spec(&self) -> u64 {
        self.len
    }

    /// The logical position, in frames of the resampled view.
    pub closed spec fn cur(&self) -> int {
        self.position as int
    }

    /// Whether a seek is pending: the next read must reposition the inner
    /// reader and reset the engine's interpolation state.
    pub closed spec fn seek_pending(&self) -> bool {
        self.position_changed
    }

    /// The reader's invariant.
    pub closed spec fn wf(&self) -> bool {
        &&& self.inner_sample_reader.wf()
        &&& self.inner_rate >= 1
        &&& self.target_rate >= 1
        &&& self.inner_sample_reader.signal().len() <= u64::MAX
        &&& self.len == scaled_count_spec(
            self.inner_sample_reader.signal().len() as u64,
            self.target_rate,
            self.inner_rate,
        )
        &&& self.position <= self.len
    }

    /// The number of audio frames in the associated audio clip.
    pub fn len(&self) -> (r: u64)
        requires
            self.wf(),
        ensures
            r == self.len_spec(),
    {
        self.len
    }

    /// The current read position in frames.
    pub fn position(&self) -> (r: u64)
        requires
            self.wf(),
        ensures
            r == self.cur(),
    {
        self.position
    }

    /// The reader's state after a seek to `p`: a seek to the current
    /// position is a no-op; any other seek records the position and marks
    /// the deferred repositioning.
    pub closed spec fn after_seek(&self, p: int) -> Self {
        if p == self.position {
            *self
        } else {
            ResampledSampleReader { position: p as u64, position_changed: true, ..*self }
        }
    }

    /// Seeking preserves the invariant and moves the position.
    pub proof fn lemma_after_seek(&self, p: int)
        requires
            self.wf(),
            0 <= p <= self.len_spec(),
        ensures
            self.after_seek(p).wf(),
            self.after_seek(p).cur() == p,
            self.after_seek(p).len_spec() == self.len_spec(),
            self.after_seek(p).inner_spec() == self.inner_spec(),
    {
    }

    /// Of several consecutive seeks, only the last one matters: the
    /// deferred repositioning and engine reset happen once, on the next
    /// read. The one excluded shape is a detour that comes back to the
    /// reader's current position: it leaves a pending engine reset behind,
    /// where the direct seek is a no-op.
    pub proof fn lemma_seek_collapses(&self, p: int, q: int)
        requires
            0 <= p <= u64::MAX,
            0 <= q <= u64::MAX,
            p == q || q != self.cur(),
        ensures
            self.after_seek(p).after_seek(q) == self.after_seek(q),
    {
    }

    /// Seeks to the specified position in frames: no inner-reader or
    /// engine work happens.
    pub fn set_position(&mut self, position: u64)
        requires
            old(self).wf(),
            position <= old(self).len_spec(),
        ensures
            *final(self) == old(self).after_seek(position as int),
            final(self).wf(),
            final(self).cur() == position,
            final(self).len_spec() == old(self).len_spec(),
    {
        if position == self.position {
            return ;
        }
        self.position = position;
        self.position_changed = true;
    }

    /// Whether the associated audio clip contains zero frames.
    pub fn is_empty(&self) -> (r: bool)
        requires
            self.wf(),
        ensures
            r == (self.len_spec() == 0),
    {
        self.len == 0
    }

    /// The number of frames left before the end of the audio clip.
    pub fn remainder(&self) -> (r: u64)
        requires
            self.wf(),
        ensures
            r == self.len_spec() - self.cur(),
    {
        self.len - self.position
    }

    /// Resolves a pending seek at the start of a read: repositions the
    /// inner reader to the inner frame corresponding to the view position
    /// (the position scaled back by the rate ratio, rounded, clamped to
    /// the inner length) and reports whether the caller must reset the
    /// engine's interpolation state — resampling state is not meaningful
    /// across a discontinuous jump. Without a pending seek, nothing
    /// happens.
    pub fn resolve_seek(&mut self) -> (reset_engine: bool)
        requires
            old(self).wf(),
        ensures
            final(self).wf(),
            final(self).cur() == old(self).cur(),
            final(self).len_spec() == old(self).len_spec(),
            final(self).inner_rate_spec() == old(self).inner_rate_spec(),
            final(self).target_rate_spec() == old(self).target_rate_spec(),
            !final(self).seek_pending(),
            reset_engine == old(self).seek_pending(),
            (!old(self).seek_pending() ==> *final(self) == *old(self)),
            (old(self).seek_pending() ==> final(self).inner_spec() == old(
                self,
            ).inner_spec().after_seek(inner_target_spec(
                old(self).cur() as u64,
                old(self).inner_rate_spec(),
                old(self).target_rate_spec(),
                old(self).inner_spec().signal().len() as u64,
            ) as int)),
    {
        if !self.position_changed {
            return false;
        }
        proof {
            self.inner_sample_reader.lemma_wf_bounds();
            assert(2 * (self.position as int) * (self.inner_rate as int) + self.target_rate
                < 0x4_0000_0000_0000_0000_0000_0000u128) by (nonlinear_arith)
                requires
                    self.position <= 0xFFFF_FFFF_FFFF_FFFFu64,
                    self.inner_rate <= 0xFFFF_FFFFu32,
                    self.target_rate <= 0xFFFF_FFFFu32,
            ;
        }
        let inner_len = self.inner_sample_reader.len();
        let wide: u128 = (2u128 * (self.position as u128) * (self.inner_rate as u128) + (
        self.target_rate as u128)) / (2u128 * (self.target_rate as u128));
        let target: u64 = if wide > inner_len as u128 {
            inner_len
        } else {
            wide as u64
        };
        proof {
            assert(target == inner_target_spec(
                self.position,
                self.inner_rate,
                self.target_rate,
                self.inner_sample_reader.signal().len() as u64,
            ));
        }
        self.inner_sample_reader.set_position(target);
        self.position_changed = false;
        true
    }

    /// The pull callback's read: up to `INPUT_BUFFER_SIZE` frames, and
    /// never more than the inner reader has left — reading beyond the
    /// inner end is allowed at the view level by zero-filling the rest of
    /// the pull buffer, which happens at the engine boundary.
    pub fn pull(&mut self) -> (r: Result<Vec<R::Item>, AudioError>)
        requires
            old(self).wf(),
        ensures
            final(self).wf(),
            final(self).cur() == old(self).cur(),
            final(self).len_spec() == old(self).len_spec(),
            final(self).seek_pending() == old(self).seek_pending(),
            (r is Ok) == old(self).inner_spec().read_ok(
                pull_count_spec(old(self).inner_spec()) as int,
            ),
            (r matches Ok(v) ==> v@ == old(self).inner_spec().signal().subrange(
                old(self).inner_spec().cur(),
                old(self).inner_spec().cur() + pull_count_spec(old(self).inner_spec()) as int,
            )),
    {
        proof {
            self.inner_sample_reader.lemma_wf_bounds();
        }
        let rem = self.inner_sample_reader.remainder();
        let count: usize = if rem < INPUT_BUFFER_SIZE as u64 {
            rem as usize
        } else {
            INPUT_BUFFER_SIZE
        };
        self.inner_sample_reader.read(count)
    }

    /// Records that the engine delivered `frames` output frames into the
    /// caller's buffer: the view's position advances past them.
    pub fn finish_read(&mut self, frames: u64)
        requires
            old(self).wf(),
            old(self).cur() + frames <= old(self).len_spec(),
        ensures
            final(self).wf(),
            final(self).cur() == old(self).cur() + frames,
            final(self).len_spec() == old(self).len_spec(),
            final(self).seek_pending() == old(self).seek_pending(),
    {
        self.position = self.position + frames;
    }
}

/// The inner frame a view position maps back to when a seek is resolved:
/// the position scaled by the inverse rate ratio, rounded, clamped to the
/// inner length.
pub open spec fn inner_target_spec(position: u64, inner_rate: u32, target_rate: u32, inner_len: u64) -> u64 {
    let raw = scaled_count_spec(position, inner_rate, target_rate);
    if raw > inner_len {
        inner_len
    } else {
        raw as u64
    }
}

/// How many frames the pull callback hands the engine: the inner
/// remainder, capped by the pull buffer's capacity.
pub open spec fn pull_count_spec<R: SampleReader>(inner: R) -> int {
    let rem = inner.signal().len() - inner.cur();
    if rem < INPUT_BUFFER_SIZE {
        rem
    } else {
        INPUT_BUFFER_SIZE as int
    }
}

} // verus!
