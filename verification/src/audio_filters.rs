//! Fluent construction of derived views: any audio clip can be wrapped in
//! a sub-range or a sample-rate conversion, any number of times, in any
//! order.

use vstd::prelude::*;

use crate::audio_clip::AudioClip;
use crate::resampled_audio_clip::{scaled_count_spec, ResampledAudioClip};
use crate::segment::Segment;

verus! {

/// Blanket implementation of the audio filters for every audio clip.
pub trait AudioFilters: AudioClip {
    /// A new audio clip containing the frames `start..end` of this one.
    fn segment(self, start: u64, end: u64) -> (r: Segment<Self>)
        requires
            self.wf(),
            start <= end,
            end <= self.signal().len(),
        ensures
            r.wf(),
            r.signal() == self.signal().subrange(start as int, end as int),
            r.rate() == self.rate(),
    ;

    /// A new audio clip resampling this one to the specified sampling rate.
    fn resampled(self, sampling_rate: u32) -> (r: ResampledAudioClip<Self>)
        requires
            self.wf(),
            sampling_rate >= 1,
            self.signal().len() <= u64::MAX,
            scaled_count_spec(self.signal().len() as u64, sampling_rate, self.rate())
                <= u64::MAX,
        ensures
            r.wf(),
            r.inner_spec() == self,
            r.rate_spec() == sampling_rate,
    ;
}

impl<C: AudioClip> AudioFilters for C {
    fn segment(self, start: u64, end: u64) -> (r: Segment<Self>) {
        Segment::new(self, start, end)
    }

    fn resampled(self, sampling_rate: u32) -> (r: ResampledAudioClip<Self>) {
        ResampledAudioClip::new(self, sampling_rate)
    }
}

} // verus!
