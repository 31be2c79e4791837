//! An audio clip read from the bytes of a WAVE container. The reader hands
//! out the raw values of the interleaved channel samples; decoding a raw
//! value to a float and downmixing channels to mono are one linear step per
//! sample that a caller performs on the raw values, using the rules stated
//! in `sample_codec`.
//!
//! The reader follows the seek-deferral protocol: `set_position` only
//! records the logical position; the next `read` performs the one physical
//! repositioning of the underlying byte stream.

use vstd::prelude::*;

use crate::audio_clip::{duration_nanos, duration_nanos_spec};
use crate::audio_error::{is_eof_error, AudioError};
use crate::byte_reader::ByteReader;
use crate::sample_codec::{bytes_per_sample, decode_raw_sample, lemma_raw_of_range, raw_of};
use crate::wave_file_info::{
    bytes_per_sample_of, get_wave_file_info, lemma_wave_parse_wf, matches_issue, wave_info_wf,
    wave_parse, WaveFileInfo, WaveParseIssue,
};

verus! {

/// The byte offset within the container at which the channel sample with
/// index `i` (counting interleaved samples from the start of the data
/// chunk) is stored.
pub open spec fn sample_byte_offset(info: WaveFileInfo, i: int) -> int {
    info.data_offset + i * bytes_per_sample_of(info.sample_format)
}

/// The number of interleaved channel samples the container declares.
pub open spec fn raw_sample_count(info: WaveFileInfo) -> int {
    info.frame_count * info.channel_count
}

/// The raw value of the channel sample with index `i`, or 0 where the data
/// chunk's declared extent lies beyond the end of the stream (a read that
/// touches such a sample fails instead of returning it).
pub open spec fn raw_sample_at(info: WaveFileInfo, d: Seq<u8>, i: int) -> i64 {
    if 0 <= i && 0 <= sample_byte_offset(info, i) && sample_byte_offset(info, i)
        + bytes_per_sample_of(info.sample_format) <= d.len() {
        raw_of(info.sample_format, d, sample_byte_offset(info, i)) as i64
    } else {
        0i64
    }
}

/// The sequence of all raw channel-sample values of the container:
/// `channel_count` interleaved values per frame.
pub open spec fn raw_signal(info: WaveFileInfo, d: Seq<u8>) -> Seq<i64> {
    Seq::new(raw_sample_count(info) as nat, |i: int| raw_sample_at(info, d, i))
}

/// An audio clip read from the bytes of a WAVE container.
pub struct WaveAudioClip {
    wave_file_info: WaveFileInfo,
    stream: ByteReader,
}

impl WaveAudioClip {
    /// The container's parsed metadata.
    pub closed spec fn info_spec(&self) -> WaveFileInfo {
        self.wave_file_info
    }

    /// The container's bytes.
    pub closed spec fn data_spec(&self) -> Seq<u8> {
        self.stream.stream()
    }

    /// The clip's invariant: its metadata is what parsing its bytes yields.
    pub closed spec fn wf(&self) -> bool {
        &&& wave_parse(self.data_spec()) == Ok::<WaveFileInfo, WaveParseIssue>(self.info_spec())
        &&& self.stream.wf()
    }

    /// A well-formed clip carries well-formed metadata.
    pub proof fn lemma_wf(&self)
        requires
            self.wf(),
        ensures
            wave_parse(self.data_spec()) == Ok::<WaveFileInfo, WaveParseIssue>(self.info_spec()),
            wave_info_wf(self.info_spec(), self.data_spec().len() as int),
    {
        lemma_wave_parse_wf(self.data_spec());
    }

    /// Parses the WAVE container `data` and creates a clip over it. Returns
    /// exactly the parse error that `wave_parse` states for unreadable
    /// containers.
    pub fn new(data: Vec<u8>) -> (r: Result<Self, AudioError>)
        ensures
            (r is Ok) == (wave_parse(data@) is Ok),
            (r matches Ok(clip) ==> clip.wf() && clip.data_spec() == data@ && wave_parse(data@)
                == Ok::<WaveFileInfo, WaveParseIssue>(clip.info_spec())),
            (r matches Err(e) ==> wave_parse(data@) matches Err(i) && matches_issue(&e, i)),
    {
        let mut stream = ByteReader::new(data);
        let wave_file_info = match get_wave_file_info(&mut stream) {
            Ok(info) => info,
            Err(e) => {
                return Err(e);
            },
        };
        Ok(WaveAudioClip { wave_file_info, stream })
    }

    /// The number of audio frames in the audio clip.
    pub fn len(&self) -> (r: u64)
        requires
            self.wf(),
        ensures
            r == self.info_spec().frame_count,
    {
        self.wave_file_info.frame_count
    }

    /// The sampling rate in frames per second.
    pub fn sampling_rate(&self) -> (r: u32)
        requires
            self.wf(),
        ensures
            r == self.info_spec().sampling_rate,
            r >= 1,
    {
        proof {
            self.lemma_wf();
        }
        self.wave_file_info.sampling_rate
    }

    /// The number of channels the container stores per frame; every reader
    /// downmixes them to mono.
    pub fn channel_count(&self) -> (r: u32)
        requires
            self.wf(),
        ensures
            r == self.info_spec().channel_count,
            r >= 1,
    {
        proof {
            self.lemma_wf();
        }
        self.wave_file_info.channel_count
    }

    /// The container's parsed metadata.
    pub fn wave_file_info(&self) -> (r: WaveFileInfo)
        requires
            self.wf(),
        ensures
            r == self.info_spec(),
    {
        self.wave_file_info
    }

    /// The duration of this audio clip in nanoseconds.
    pub fn duration(&self) -> (r: u64)
        requires
            self.wf(),
        ensures
            r == duration_nanos_spec(self.info_spec().frame_count, self.info_spec().sampling_rate),
    {
        proof {
            self.lemma_wf();
            let info = self.info_spec();
            assert(info.frame_count <= info.frame_count * info.bytes_per_frame) by (nonlinear_arith)
                requires
                    info.bytes_per_frame >= 1,
                    info.frame_count >= 0,
            ;
            assert(duration_nanos_spec(info.frame_count, info.sampling_rate) <= u64::MAX)
                by (nonlinear_arith)
                requires
                    info.frame_count <= u32::MAX,
                    info.sampling_rate >= 1,
            ;
        }
        duration_nanos(self.wave_file_info.frame_count, self.wave_file_info.sampling_rate)
    }

    /// Whether this audio clip contains zero frames.
    pub fn is_empty(&self) -> (r: bool)
        requires
            self.wf(),
        ensures
            r == (self.info_spec().frame_count == 0),
    {
        self.wave_file_info.frame_count == 0
    }

    /// Creates a new, independent raw sample reader positioned at frame 0.
    pub fn create_sample_reader(&self) -> (r: Result<WaveFileSampleReader, AudioError>)
        requires
            self.wf(),
        ensures
            r matches Ok(reader) && reader.wf() && reader.info_spec() == self.info_spec()
                && reader.data_spec() == self.data_spec() && reader.cur() == 0
                && reader.phys_spec() is None,
    {
        Ok(
            WaveFileSampleReader {
                wave_file_info: self.wave_file_info,
                stream: self.stream.duplicate(),
                logical_position: 0,
                physical_position: None,
            },
        )
    }
}

impl Clone for WaveAudioClip {
    /// A clone reads the same container: cloning shares nothing mutable.
    fn clone(&self) -> (r: Self)
        ensures
            r.info_spec() == self.info_spec(),
            r.data_spec() == self.data_spec(),
            self.wf() ==> r.wf(),
    {
        WaveAudioClip { wave_file_info: self.wave_file_info, stream: self.stream.duplicate() }
    }
}

/// A stateful raw-sample cursor over one WAVE container. `len`, `position`
/// and `set_position` speak of frames; `read` returns `channel_count` raw
/// values per frame, in channel order.
pub struct WaveFileSampleReader {
    wave_file_info: WaveFileInfo,
    stream: ByteReader,
    /// The position the reader reports: authoritative.
    logical_position: u64,
    /// The frame whose first byte the underlying stream is positioned at,
    /// if a read has positioned it.
    physical_position: Option<u64>,
}

impl WaveFileSampleReader {
    /// The container's parsed metadata.
    pub closed spec fn info_spec(&self) -> WaveFileInfo {
        self.wave_file_info
    }

    /// The container's bytes.
    pub closed spec fn data_spec(&self) -> Seq<u8> {
        self.stream.stream()
    }

    /// The logical position, in frames.
    pub closed spec fn cur(&self) -> int {
        self.logical_position as int
    }

    /// The physically resolved position, in frames, if any.
    pub closed spec fn phys_spec(&self) -> Option<u64> {
        self.physical_position
    }

    /// The reader's invariant.
    pub closed spec fn wf(&self) -> bool {
        &&& wave_parse(self.data_spec()) == Ok::<WaveFileInfo, WaveParseIssue>(self.info_spec())
        &&& self.stream.wf()
        &&& self.logical_position <= self.info_spec().frame_count
    }

    /// A well-formed reader carries well-formed metadata and a position
    /// within bounds.
    pub proof fn lemma_wf(&self)
        requires
            self.wf(),
        ensures
            wave_info_wf(self.info_spec(), self.data_spec().len() as int),
            0 <= self.cur() <= self.info_spec().frame_count,
    {
        lemma_wave_parse_wf(self.data_spec());
    }

    /// The reader's state after a seek to `p`: only the logical position
    /// changes; no byte-stream work happens.
    pub closed spec fn after_seek(&self, p: int) -> Self {
        WaveFileSampleReader { logical_position: p as u64, ..*self }
    }

    /// Seeking preserves the invariant and the signal and moves the
    /// position.
    pub proof fn lemma_after_seek(&self, p: int)
        requires
            self.wf(),
            0 <= p <= self.info_spec().frame_count,
        ensures
            self.after_seek(p).wf(),
            self.after_seek(p).info_spec() == self.info_spec(),
            self.after_seek(p).data_spec() == self.data_spec(),
            self.after_seek(p).phys_spec() == self.phys_spec(),
            self.after_seek(p).cur() == p,
    {
    }

    /// Of several consecutive seeks, only the last one matters: the
    /// deferred physical repositioning happens once, on the next read.
    pub proof fn lemma_seek_collapses(&self, p: int, q: int)
        requires
            0 <= p <= u64::MAX,
            0 <= q <= u64::MAX,
        ensures
            self.after_seek(p).after_seek(q) == self.after_seek(q),
    {
    }

    /// The number of audio frames in the associated audio clip.
    pub fn len(&self) -> (r: u64)
        requires
            self.wf(),
        ensures
            r == self.info_spec().frame_count,
    {
        self.wave_file_info.frame_count
    }

    /// The current read position in frames.
    pub fn position(&self) -> (r: u64)
        requires
            self.wf(),
        ensures
            r == self.cur(),
    {
        self.logical_position
    }

    /// Seeks to the specified position in frames, deferring all byte-stream
    /// work to the next read.
    pub fn set_position(&mut self, position: u64)
        requires
            old(self).wf(),
            position <= old(self).info_spec().frame_count,
        ensures
            *final(self) == old(self).after_seek(position as int),
            final(self).wf(),
            final(self).cur() == position,
            final(self).info_spec() == old(self).info_spec(),
            final(self).data_spec() == old(self).data_spec(),
    {
        self.logical_position = position;
    }

    /// Whether the associated audio clip contains zero frames.
    pub fn is_empty(&self) -> (r: bool)
        requires
            self.wf(),
        ensures
            r == (self.info_spec().frame_count == 0),
    {
        self.wave_file_info.frame_count == 0
    }

    /// The number of frames left before the end of the audio clip.
    pub fn remainder(&self) -> (r: u64)
        requires
            self.wf(),
        ensures
            r == self.info_spec().frame_count - self.cur(),
    {
        self.wave_file_info.frame_count - self.logical_position
    }

    /// Reads the raw values of the next `frame_count` frames — one value
    /// per channel per frame, interleaved in channel order — and advances
    /// the position. Resolves any deferred seek with one repositioning of
    /// the byte stream first. Fails with the corrupt-file error for a
    /// truncated stream exactly when the frames' bytes lie beyond the end
    /// of the data.
    pub fn read(&mut self, frame_count: usize) -> (r: Result<Vec<i64>, AudioError>)
        requires
            old(self).wf(),
            old(self).cur() + frame_count <= old(self).info_spec().frame_count,
        ensures
            final(self).wf(),
            final(self).info_spec() == old(self).info_spec(),
            final(self).data_spec() == old(self).data_spec(),
            (r is Ok) == (frame_count == 0 || old(self).info_spec().data_offset + (old(self).cur()
                + frame_count) * old(self).info_spec().bytes_per_frame
                <= old(self).data_spec().len()),
            (r matches Ok(v) ==> v@ == raw_signal(old(self).info_spec(), old(self).data_spec())
                .subrange(
                old(self).cur() * old(self).info_spec().channel_count,
                (old(self).cur() + frame_count) * old(self).info_spec().channel_count,
            ) && final(self).cur() == old(self).cur() + frame_count && final(self).phys_spec()
                == Some((old(self).cur() + frame_count) as u64)),
            (r matches Err(e) ==> is_eof_error(&e) && final(self).cur() == old(self).cur()
                && final(self).phys_spec() == Some(old(self).cur() as u64)),
    {
        let ghost d = old(self).data_spec();
        let ghost info = old(self).info_spec();
        let ghost l0 = old(self).cur();
        proof {
            old(self).lemma_wf();
        }
        // Establishes that the stream's length fits the machine word, which
        // the offset arithmetic below relies on.
        let _total_bytes: usize = self.stream.stream_len();
        let bpf: u32 = self.wave_file_info.bytes_per_frame;
        let cc: u32 = self.wave_file_info.channel_count;
        let bps: u32 = bytes_per_sample(self.wave_file_info.sample_format);
        proof {
            lemma_frame_layout(
                bps as int,
                cc as int,
                bpf as int,
                l0,
                frame_count as int,
                info.frame_count as int,
            );
        }

        // Resolve the deferred seek: the one physical repositioning.
        let start128: u128 = self.wave_file_info.data_offset as u128 + (self.logical_position
            as u128) * (bpf as u128);
        let target: u64 = if start128 > u64::MAX as u128 {
            u64::MAX
        } else {
            start128 as u64
        };
        self.stream.seek(target);
        self.physical_position = Some(self.logical_position);

        if frame_count == 0 {
            let out: Vec<i64> = Vec::new();
            proof {
                assert(out@ =~= raw_signal(info, d).subrange(l0 * cc, (l0 + 0) * cc));
            }
            return Ok(out);
        }
        let ghost start = info.data_offset + l0 * info.bytes_per_frame;
        let byte_count: usize = frame_count * (bpf as usize);
        proof {
            assert(start128 == start);
            assert((l0 + frame_count) * info.bytes_per_frame == l0 * info.bytes_per_frame
                + frame_count * info.bytes_per_frame);
            assert(byte_count >= 1) by (nonlinear_arith)
                requires
                    byte_count == frame_count * bpf,
                    frame_count >= 1,
                    bpf >= 1,
            ;
        }
        let chunk = match self.stream.read_bytes(byte_count) {
            Ok(c) => c,
            Err(e) => {
                proof {
                    assert(info.data_offset + (l0 + frame_count) * info.bytes_per_frame > d.len());
                }
                return Err(e);
            },
        };
        proof {
            assert(start + byte_count <= d.len());
            assert(chunk@ == d.subrange(start, start + byte_count));
        }

        let total: usize = frame_count * (cc as usize);
        let mut out: Vec<i64> = Vec::new();
        let mut i: usize = 0;
        while i < total
            invariant
                i <= total,
                out@.len() == i,
                self.wave_file_info == info,
                total == frame_count * cc,
                byte_count == frame_count * bpf,
                bps == bytes_per_sample_of(info.sample_format),
                bpf == info.bytes_per_frame,
                cc == info.channel_count,
                bpf == bps * cc,
                1 <= bps,
                1 <= cc,
                1 <= frame_count,
                0 <= l0,
                l0 + frame_count <= info.frame_count,
                start == info.data_offset + l0 * info.bytes_per_frame,
                chunk@.len() == byte_count,
                chunk@ == d.subrange(start, start + byte_count),
                start + byte_count <= d.len(),
                forall|j: int|
                    0 <= j < i ==> out@[j] == raw_sample_at(info, d, #[trigger] (l0 * cc + j)),
            decreases total - i,
        {
            proof {
                lemma_sample_layout(
                    bps as int,
                    cc as int,
                    bpf as int,
                    frame_count as int,
                    i as int,
                );
                lemma_raw_of_range(info.sample_format, chunk@, i * bps);
            }
            let value = decode_raw_sample(self.wave_file_info.sample_format, &chunk, i * (
            bps as usize));
            proof {
                lemma_raw_translate(info, d, chunk@, l0, i as int, byte_count as int);
            }
            out.push(value);
            i = i + 1;
        }
        self.logical_position = self.logical_position + frame_count as u64;
        self.physical_position = Some(self.logical_position);
        proof {
            assert(0 <= l0 * cc);
            assert((l0 + frame_count) * cc <= raw_sample_count(info));
            assert(l0 * cc + frame_count * cc == (l0 + frame_count) * cc);
            assert(out@.len() == frame_count * cc);
            let sub = raw_signal(info, d).subrange(l0 * cc, (l0 + frame_count) * cc);
            assert(sub.len() == frame_count * cc);
            assert forall|j: int| 0 <= j < frame_count * cc implies out@[j] == sub[j] by {
                assert(out@[j] == raw_sample_at(info, d, l0 * cc + j));
                assert(sub[j] == raw_signal(info, d)[l0 * cc + j]);
                assert(raw_signal(info, d)[l0 * cc + j] == raw_sample_at(info, d, l0 * cc + j));
            }
            assert(out@ =~= sub);
        }
        Ok(out)
    }
}

/// The arithmetic relations between frames, channel samples and bytes that
/// the reader's bounds rest on.
proof fn lemma_frame_layout(bps: int, cc: int, bpf: int, l0: int, fc: int, fcount: int)
    requires
        bpf == bps * cc,
        1 <= bps,
        1 <= cc,
        0 <= l0,
        0 <= fc,
        l0 + fc <= fcount,
        fcount * bpf <= u32::MAX,
    ensures
        1 <= bpf,
        fc * bpf <= fcount * bpf,
        l0 * bpf + fc * bpf == (l0 + fc) * bpf,
        0 <= l0 * bpf,
        l0 * bpf <= fcount * bpf,
        fc * cc <= fc * bpf,
        0 <= fc * cc,
        cc <= bpf,
        0 <= l0 * cc,
        l0 * cc + fc * cc == (l0 + fc) * cc,
        (l0 + fc) * cc <= fcount * cc,
        fcount * cc <= fcount * bpf,
{
    assert(1 <= bpf) by (nonlinear_arith)
        requires
            bpf == bps * cc,
            1 <= bps,
            1 <= cc,
    ;
    assert(fc * bpf <= fcount * bpf) by (nonlinear_arith)
        requires
            0 <= fc,
            l0 + fc <= fcount,
            0 <= l0,
            1 <= bpf,
    ;
    assert(l0 * bpf + fc * bpf == (l0 + fc) * bpf) by (nonlinear_arith);
    assert(0 <= l0 * bpf && l0 * bpf <= fcount * bpf) by (nonlinear_arith)
        requires
            0 <= l0,
            l0 <= fcount,
            1 <= bpf,
    ;
    assert(cc <= bpf) by (nonlinear_arith)
        requires
            bpf == bps * cc,
            1 <= bps,
            1 <= cc,
    ;
    assert(fc * cc <= fc * bpf && 0 <= fc * cc) by (nonlinear_arith)
        requires
            0 <= fc,
            0 <= cc,
            cc <= bpf,
    ;
    assert(0 <= l0 * cc) by (nonlinear_arith)
        requires
            0 <= l0,
            1 <= cc,
    ;
    assert(l0 * cc + fc * cc == (l0 + fc) * cc) by (nonlinear_arith);
    assert((l0 + fc) * cc <= fcount * cc) by (nonlinear_arith)
        requires
            l0 + fc <= fcount,
            0 <= l0 + fc,
            1 <= cc,
    ;
    assert(fcount * cc <= fcount * bpf) by (nonlinear_arith)
        requires
            0 <= fcount,
            cc <= bpf,
    ;
}

/// The byte offset of channel sample `i` within a read that covers `fc`
/// frames.
proof fn lemma_sample_layout(bps: int, cc: int, bpf: int, fc: int, i: int)
    requires
        bpf == bps * cc,
        1 <= bps,
        1 <= cc,
        0 <= i < fc * cc,
    ensures
        i * bps + bps <= fc * bpf,
        0 <= i * bps,
{
    assert(i * bps + bps <= (fc * cc) * bps) by (nonlinear_arith)
        requires
            0 <= i,
            i < fc * cc,
            1 <= bps,
    ;
    assert((fc * cc) * bps == fc * (bps * cc)) by (nonlinear_arith);
    assert(0 <= i * bps) by (nonlinear_arith)
        requires
            0 <= i,
            1 <= bps,
    ;
}

/// A raw value decoded from the read chunk equals the raw value of the
/// corresponding channel sample of the whole container.
proof fn lemma_raw_translate(
    info: WaveFileInfo,
    d: Seq<u8>,
    chunk: Seq<u8>,
    l0: int,
    i: int,
    bc: int,
)
    requires
        0 <= l0,
        0 <= i,
        info.bytes_per_frame == bytes_per_sample_of(info.sample_format) * info.channel_count,
        1 <= bytes_per_sample_of(info.sample_format),
        1 <= info.channel_count,
        i * bytes_per_sample_of(info.sample_format) + bytes_per_sample_of(info.sample_format)
            <= bc,
        chunk == d.subrange(
            info.data_offset + l0 * info.bytes_per_frame,
            info.data_offset + l0 * info.bytes_per_frame + bc,
        ),
        info.data_offset + l0 * info.bytes_per_frame + bc <= d.len(),
    ensures
        raw_of(info.sample_format, chunk, i * bytes_per_sample_of(info.sample_format))
            == raw_sample_at(info, d, l0 * info.channel_count + i),
        raw_sample_at(info, d, l0 * info.channel_count + i) == raw_of(
            info.sample_format,
            d,
            sample_byte_offset(info, l0 * info.channel_count + i),
        ) as i64,
{
    let bps = bytes_per_sample_of(info.sample_format) as int;
    let cc = info.channel_count as int;
    let bpf = info.bytes_per_frame as int;
    let start = info.data_offset + l0 * bpf;
    let o = i * bps;
    assert((l0 * cc + i) * bps == l0 * (bps * cc) + i * bps) by (nonlinear_arith);
    assert(0 <= l0 * cc + i) by (nonlinear_arith)
        requires
            0 <= l0,
            1 <= cc,
            0 <= i,
    ;
    let off = sample_byte_offset(info, l0 * cc + i);
    assert(off == start + o);
    assert(off + bps <= d.len());
    assert(chunk[o] == d[off]);
    if bps >= 2 {
        assert(chunk[o + 1] == d[off + 1]);
    }
    if bps >= 3 {
        assert(chunk[o + 2] == d[off + 2]);
    }
    if bps >= 4 {
        assert(chunk[o + 3] == d[off + 3]);
    }
    if bps >= 8 {
        assert(chunk[o + 4] == d[off + 4]);
        assert(chunk[o + 5] == d[off + 5]);
        assert(chunk[o + 6] == d[off + 6]);
        assert(chunk[o + 7] == d[off + 7]);
    }
    assert(raw_of(info.sample_format, chunk, o) == raw_of(info.sample_format, d, off));
    lemma_raw_of_range(info.sample_format, d, off);
}

} // verus!
