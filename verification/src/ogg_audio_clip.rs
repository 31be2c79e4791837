//! An audio clip decoded on the fly from an Ogg Vorbis stream. The decode
//! engine is an external collaborator: opening the stream, querying its
//! metadata and decoding batches happen at the boundary, and the caller
//! drives them. What the library verifies is the clip's and reader's own
//! logic: the cached metadata, the position tracking, and the seek-deferral
//! protocol — `set_position` only records the logical position, and the
//! next read resolves it with exactly one engine seek.

use vstd::prelude::*;

use crate::audio_clip::{duration_nanos, duration_nanos_spec};
use crate::audio_error::AudioError;
use crate::vorbis_file::Metadata;

verus! {

/// An audio clip read on the fly from an Ogg Vorbis stream, described by
/// the metadata the decode engine reports for it.
pub struct OggAudioClip {
    metadata: Metadata,
}

impl OggAudioClip {
    /// The stream's metadata.
    pub closed spec fn metadata_spec(&self) -> Metadata {
        self.metadata
    }

    /// The clip's invariant: a positive sampling rate.
    pub closed spec fn wf(&self) -> bool {
        self.metadata.sampling_rate >= 1
    }

    /// A new clip over a stream whose metadata the decode engine reported.
    /// Opening the stream and querying the engine happen at the boundary;
    /// they yield the `metadata` this clip caches.
    pub fn new(metadata: Metadata) -> (r: Result<Self, AudioError>)
        requires
            metadata.sampling_rate >= 1,
        ensures
            r matches Ok(clip) && clip.wf() && clip.metadata_spec() == metadata,
    {
        Ok(OggAudioClip { metadata })
    }

    /// The number of audio frames in the audio clip.
    pub fn len(&self) -> (r: u64)
        requires
            self.wf(),
        ensures
            r == self.metadata_spec().frame_count,
    {
        self.metadata.frame_count
    }

    /// The sampling rate in frames per second.
    pub fn sampling_rate(&self) -> (r: u32)
        requires
            self.wf(),
        ensures
            r == self.metadata_spec().sampling_rate,
            r >= 1,
    {
        self.metadata.sampling_rate
    }

    /// The duration of this audio clip in nanoseconds.
    pub fn duration(&self) -> (r: u64)
        requires
            self.wf(),
            duration_nanos_spec(
                self.metadata_spec().frame_count,
                self.metadata_spec().sampling_rate,
            ) <= u64::MAX,
        ensures
            r == duration_nanos_spec(
                self.metadata_spec().frame_count,
                self.metadata_spec().sampling_rate,
            ),
    {
        duration_nanos(self.metadata.frame_count, self.metadata.sampling_rate)
    }

    /// Whether this audio clip contains zero frames.
    pub fn is_empty(&self) -> (r: bool)
        requires
            self.wf(),
        ensures
            r == (self.metadata_spec().frame_count == 0),
    {
        self.metadata.frame_count == 0
    }

    /// A new, independent reader state over this clip, positioned at frame
    /// 0. The caller opens its own engine handle for the reader; this state
    /// machine tells it when to seek and how far it may decode.
    pub fn create_sample_reader(&self) -> (r: Result<OggFileSampleReader, AudioError>)
        requires
            self.wf(),
        ensures
            r matches Ok(reader) && reader.wf() && reader.metadata_spec() == self.metadata_spec()
                && reader.cur() == 0 && reader.phys() == 0,
    {
        Ok(OggFileSampleReader::new(self.metadata))
    }
}

impl Clone for OggAudioClip {
    /// A clone describes the same stream.
    fn clone(&self) -> (r: Self)
        ensures
            r.metadata_spec() == self.metadata_spec(),
            self.wf() ==> r.wf(),
    {
        OggAudioClip { metadata: self.metadata }
    }
}

/// The verified state of a stateful cursor over one Ogg Vorbis stream: the
/// logical position it reports, and the physical position the decode
/// engine is at. The caller performs the engine calls this state machine
/// asks for.
pub struct OggFileSampleReader {
    metadata: Metadata,
    /// The position the reader claims to be at: authoritative.
    logical_position: u64,
    /// The position the decode engine is actually at.
    physical_position: u64,
}

impl OggFileSampleReader {
    /// The stream's metadata.
    pub closed spec fn metadata_spec(&self) -> Metadata {
        self.metadata
    }

    /// The logical position, in frames.
    pub closed spec fn cur(&self) -> int {
        self.logical_position as int
    }

    /// The decode engine's position, in frames.
    pub closed spec fn phys(&self) -> int {
        self.physical_position as int
    }

    /// The reader's invariant.
    pub closed spec fn wf(&self) -> bool {
        &&& self.logical_position <= self.metadata.frame_count
        &&& self.physical_position <= self.metadata.frame_count
    }

    /// A new reader state at the start of the stream, where a freshly
    /// opened engine handle is positioned.
    pub fn new(metadata: Metadata) -> (r: Self)
        ensures
            r.metadata_spec() == metadata,
            r.cur() == 0,
            r.phys() == 0,
            r.wf(),
    {
        OggFileSampleReader { metadata, logical_position: 0, physical_position: 0 }
    }

    /// The number of audio frames in the associated audio clip.
    pub fn len(&self) -> (r: u64)
        requires
            self.wf(),
        ensures
            r == self.metadata_spec().frame_count,
    {
        self.metadata.frame_count
    }

    /// The current read position in frames.
    pub fn position(&self) -> (r: u64)
        requires
            self.wf(),
        ensures
            r == self.cur(),
    {
        self.logical_position
    }

    /// The reader's state after a seek to `p`: only the logical position
    /// changes; the engine is repositioned lazily by the next read.
    pub closed spec fn after_seek(&self, p: int) -> Self {
        OggFileSampleReader { logical_position: p as u64, ..*self }
    }

    /// Seeking preserves the invariant and moves only the logical
    /// position.
    pub proof fn lemma_after_seek(&self, p: int)
        requires
            self.wf(),
            0 <= p <= self.metadata_spec().frame_count,
        ensures
            self.after_seek(p).wf(),
            self.after_seek(p).metadata_spec() == self.metadata_spec(),
            self.after_seek(p).cur() == p,
            self.after_seek(p).phys() == self.phys(),
    {
    }

    /// Of several consecutive seeks, only the last one matters.
    pub proof fn lemma_seek_collapses(&self, p: int, q: int)
        requires
            0 <= p <= u64::MAX,
            0 <= q <= u64::MAX,
        ensures
            self.after_seek(p).after_seek(q) == self.after_seek(q),
    {
    }

    /// Seeks to the specified position in frames: no engine work happens.
    pub fn set_position(&mut self, position: u64)
        requires
            old(self).wf(),
            position <= old(self).metadata_spec().frame_count,
        ensures
            *final(self) == old(self).after_seek(position as int),
            final(self).wf(),
            final(self).cur() == position,
            final(self).phys() == old(self).phys(),
            final(self).metadata_spec() == old(self).metadata_spec(),
    {
        self.logical_position = position;
    }

    /// Whether the associated audio clip contains zero frames.
    pub fn is_empty(&self) -> (r: bool)
        requires
            self.wf(),
        ensures
            r == (self.metadata_spec().frame_count == 0),
    {
        self.metadata.frame_count == 0
    }

    /// The number of frames left before the end of the audio clip.
    pub fn remainder(&self) -> (r: u64)
        requires
            self.wf(),
        ensures
            r == self.metadata_spec().frame_count - self.cur(),
    {
        self.metadata.frame_count - self.logical_position
    }

    /// Resolves the deferred seek at the start of a read: when the engine's
    /// position differs from the logical one, returns the frame the caller
    /// must seek the engine to — exactly one engine seek, however many
    /// `set_position` calls preceded the read — and records that the
    /// engine is there; otherwise nothing is to be done.
    pub fn resolve_seek(&mut self) -> (r: Option<u64>)
        requires
            old(self).wf(),
        ensures
            final(self).wf(),
            final(self).metadata_spec() == old(self).metadata_spec(),
            final(self).cur() == old(self).cur(),
            final(self).phys() == final(self).cur(),
            (old(self).phys() == old(self).cur() ==> r is None && *final(self) == *old(self)),
            (old(self).phys() != old(self).cur() ==> (r matches Some(target) && target == old(
                self,
            ).cur())),
    {
        if self.physical_position != self.logical_position {
            self.physical_position = self.logical_position;
            Some(self.logical_position)
        } else {
            None
        }
    }

    /// Records that the engine decoded `frames` frames, which the caller
    /// downmixed into its buffer: both positions advance together.
    pub fn advance(&mut self, frames: u64)
        requires
            old(self).wf(),
            old(self).phys() == old(self).cur(),
            old(self).cur() + frames <= old(self).metadata_spec().frame_count,
        ensures
            final(self).wf(),
            final(self).metadata_spec() == old(self).metadata_spec(),
            final(self).cur() == old(self).cur() + frames,
            final(self).phys() == final(self).cur(),
    {
        self.logical_position = self.logical_position + frames;
        self.physical_position = self.logical_position;
    }
}

/// Whether a decode batch violates the read contract: a zero-progress
/// batch with no reported error, while output frames are still owed, can
/// only mean the stream ended before its declared length — a contract
/// violation given that reads are bounds-checked up front.
pub fn batch_violates_contract(produced_frames: u64, remaining_frames: u64) -> (r: bool)
    ensures
        r == (produced_frames == 0 && remaining_frames > 0),
{
    produced_frames == 0 && remaining_frames > 0
}

} // verus!
