//! An audio clip representing a segment of another audio clip: a
//! coordinate-shifted sub-range. From a caller's perspective a segment is
//! indistinguishable from a leaf source; its reader translates positions by
//! the segment's start and delegates everything else to an inner reader.

use vstd::prelude::*;
use vstd::string::StringExecFns;

use crate::audio_clip::{duration_nanos, AudioClip, SampleReader};
use crate::audio_error::AudioError;
use crate::text::{decimal_string, decimal_text};

verus! {

/// The abort message for a segment whose start lies past its end.
pub open spec fn segment_order_text(start: u64, end: u64) -> Seq<char> {
    "Start ("@ + decimal_text(start as nat) + ") must not be greater than end ("@ + decimal_text(
        end as nat,
    ) + ")."@
}

/// The abort message for a segment reaching past its inner clip's length.
pub open spec fn segment_bounds_text(start: u64, end: u64, inner_len: u64) -> Seq<char> {
    "Segment "@ + decimal_text(start as nat) + ".."@ + decimal_text(end as nat) + " exceeds "@
        + decimal_text(inner_len as nat) + "-frame audio clip."@
}

/// Checks segment bounds against the inner clip's length: `None` exactly
/// when `start <= end <= inner_len`, else the message with which
/// construction must abort (a caller bug, not a recoverable error).
pub fn check_segment_bounds(start: u64, end: u64, inner_len: u64) -> (r: Option<String>)
    ensures
        (r is None) == (start <= end && end <= inner_len),
        (start > end ==> (r matches Some(m) && m@ == segment_order_text(start, end))),
        (start <= end && end > inner_len ==> (r matches Some(m) && m@ == segment_bounds_text(
            start,
            end,
            inner_len,
        ))),
{
    if start > end {
        let mut msg = "Start (".to_owned();
        msg.append(decimal_string(start).as_str());
        msg.append(") must not be greater than end (");
        msg.append(decimal_string(end).as_str());
        msg.append(").");
        proof {
            assert(msg@ =~= segment_order_text(start, end));
        }
        Some(msg)
    } else if end > inner_len {
        let mut msg = "Segment ".to_owned();
        msg.append(decimal_string(start).as_str());
        msg.append("..");
        msg.append(decimal_string(end).as_str());
        msg.append(" exceeds ");
        msg.append(decimal_string(inner_len).as_str());
        msg.append("-frame audio clip.");
        proof {
            assert(msg@ =~= segment_bounds_text(start, end, inner_len));
        }
        Some(msg)
    } else {
        None
    }
}

/// An audio clip representing a segment of another audio clip.
pub struct Segment<C: AudioClip> {
    inner_clip: C,
    start: u64,
    end: u64,
}

impl<C: AudioClip> Segment<C> {
    /// A new audio clip over the frames `start..end` of an existing one.
    /// Asking for a range outside the inner clip is a caller bug: the
    /// caller checks it first (`check_segment_bounds`) and aborts with the
    /// message given there.
    pub fn new(inner_clip: C, start: u64, end: u64) -> (r: Self)
        requires
            inner_clip.wf(),
            start <= end,
            end <= inner_clip.signal().len(),
        ensures
            r.wf(),
            r.signal() == inner_clip.signal().subrange(start as int, end as int),
            r.rate() == inner_clip.rate(),
            r.reader_ok() == inner_clip.reader_ok(),
    {
        Segment { inner_clip, start, end }
    }
}

impl<C: AudioClip> AudioClip for Segment<C> {
    type Reader = SegmentSampleReader<C::Reader>;

    closed spec fn wf(&self) -> bool {
        &&& self.inner_clip.wf()
        &&& self.start <= self.end
        &&& self.end <= self.inner_clip.signal().len()
    }

    closed spec fn signal(&self) -> Seq<<C::Reader as SampleReader>::Item> {
        self.inner_clip.signal().subrange(self.start as int, self.end as int)
    }

    closed spec fn rate(&self) -> u32 {
        self.inner_clip.rate()
    }

    closed spec fn reader_ok(&self) -> bool {
        self.inner_clip.reader_ok()
    }

    proof fn lemma_rate_positive(&self) {
        self.inner_clip.lemma_rate_positive();
    }

    fn len(&self) -> (r: u64) {
        self.end - self.start
    }

    fn sampling_rate(&self) -> (r: u32) {
        self.inner_clip.sampling_rate()
    }

    fn create_sample_reader(&self) -> (r: Result<Self::Reader, AudioError>) {
        let mut inner_sample_reader = match self.inner_clip.create_sample_reader() {
            Ok(reader) => reader,
            Err(e) => {
                return Err(e);
            },
        };
        inner_sample_reader.set_position(self.start);
        let reader = SegmentSampleReader {
            inner_sample_reader,
            start: self.start,
            end: self.end,
        };
        proof {
            assert(reader.signal() =~= self.signal());
        }
        Ok(reader)
    }

    fn duration(&self) -> (r: u64) {
        duration_nanos(self.end - self.start, self.inner_clip.sampling_rate())
    }

    fn is_empty(&self) -> (r: bool) {
        self.end == self.start
    }
}

/// A stateful cursor over one segment: logical position 0 in the segment
/// corresponds to `start` in the inner reader.
pub struct SegmentSampleReader<R: SampleReader> {
    inner_sample_reader: R,
    start: u64,
    end: u64,
}

impl<R: SampleReader> SegmentSampleReader<R> {
    /// The inner reader this segment reader delegates to.
    pub closed spec fn inner_spec(&self) -> R {
        self.inner_sample_reader
    }

    /// The first inner frame of the segment.
    pub closed spec fn start_spec(&self) -> u64 {
        self.start
    }

    /// The inner frame just past the segment.
    pub closed spec fn end_spec(&self) -> u64 {
        self.end
    }
}

impl<R: SampleReader> SampleReader for SegmentSampleReader<R> {
    type Item = R::Item;

    closed spec fn wf(&self) -> bool {
        &&& self.inner_sample_reader.wf()
        &&& self.start <= self.end
        &&& self.end <= self.inner_sample_reader.signal().len()
        &&& self.start <= self.inner_sample_reader.cur() <= self.end
    }

    closed spec fn signal(&self) -> Seq<R::Item> {
        self.inner_sample_reader.signal().subrange(self.start as int, self.end as int)
    }

    closed spec fn cur(&self) -> int {
        self.inner_sample_reader.cur() - self.start
    }

    closed spec fn read_ok(&self, n: int) -> bool {
        self.inner_sample_reader.read_ok(n)
    }

    closed spec fn after_seek(&self, p: int) -> Self {
        SegmentSampleReader {
            inner_sample_reader: self.inner_sample_reader.after_seek(p + self.start),
            start: self.start,
            end: self.end,
        }
    }

    proof fn lemma_wf_bounds(&self) {
    }

    proof fn lemma_after_seek(&self, p: int) {
        self.inner_sample_reader.lemma_after_seek(p + self.start);
        assert(self.after_seek(p).signal() =~= self.signal());
    }

    proof fn lemma_seek_collapses(&self, p: int, q: int) {
        self.inner_sample_reader.lemma_seek_collapses(p + self.start, q + self.start);
    }

    proof fn lemma_read_ok_zero(&self) {
        self.inner_sample_reader.lemma_read_ok_zero();
    }

    fn len(&self) -> (r: u64) {
        self.end - self.start
    }

    fn position(&self) -> (r: u64) {
        self.inner_sample_reader.position() - self.start
    }

    fn set_position(&mut self, position: u64) {
        self.inner_sample_reader.set_position(position + self.start);
        proof {
            assert(self.signal() =~= old(self).signal());
        }
    }

    fn read(&mut self, frame_count: usize) -> (r: Result<Vec<Self::Item>, AudioError>) {
        let ghost pre = *self;
        let result = self.inner_sample_reader.read(frame_count);
        proof {
            assert(self.signal() =~= pre.signal());
            match &result {
                Ok(v) => {
                    assert(v@ =~= pre.signal().subrange(pre.cur(), pre.cur() + frame_count));
                },
                Err(_) => {},
            }
        }
        result
    }

    fn is_empty(&self) -> (r: bool) {
        self.end == self.start
    }

    fn remainder(&self) -> (r: u64) {
        self.end - self.inner_sample_reader.position()
    }
}

/// The segment invariant: reading a segment's full length yields exactly
/// the inner source's frames from `start` to `end` — what a full read
/// returns, `signal().subrange(0, len)`, is the inner signal's sub-range.
pub proof fn lemma_segment_reads_inner_range<R: SampleReader>(s: SegmentSampleReader<R>)
    requires
        s.wf(),
    ensures
        s.signal().subrange(0, s.signal().len() as int) == s.inner_spec().signal().subrange(
            s.start_spec() as int,
            s.end_spec() as int,
        ),
{
    assert(s.signal().subrange(0, s.signal().len() as int) =~= s.inner_spec().signal().subrange(
        s.start_spec() as int,
        s.end_spec() as int,
    ));
}

} // verus!
