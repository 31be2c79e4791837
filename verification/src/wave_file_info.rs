//! The RIFF/WAVE container parser: walks the chunk list from the start of the
//! stream, extracts the format and data chunks, and resolves the codec tag
//! and bits-per-sample to one of the six supported sample encodings. The
//! executable parser is proved equivalent to the specification-level parser
//! `wave_parse`.

use vstd::prelude::*;
use vstd::string::StringExecFns;

use crate::audio_error::{eof_text, AudioError};
use crate::byte_reader::{u16_le_at, u32_le_at, ByteReader};
use crate::four_cc::{chars_of_bytes, four_cc_to_string, FourCc, ReadFourCcExt};
use crate::text::{decimal_string, decimal_text, hex4_string, hex4_text};

verus! {

/// One of the six sample encodings this library decodes.
#[derive(Debug, Copy, Clone, PartialEq, Eq, Structural)]
pub enum SampleFormat {
    U8,
    I16,
    I24,
    I32,
    F32,
    F64,
}

/// Parsed, immutable metadata of a WAVE file.
#[derive(Debug, Copy, Clone, PartialEq, Eq, Structural)]
pub struct WaveFileInfo {
    pub sample_format: SampleFormat,
    pub channel_count: u32,
    pub sampling_rate: u32,
    pub frame_count: u64,
    pub bytes_per_frame: u32,
    /// The offset, in bytes, of the raw audio data within the file.
    pub data_offset: u64,
}

/// The contents of a format chunk, resolved to a supported encoding.
#[derive(Debug, Copy, Clone)]
pub struct FormatInfo {
    pub sample_format: SampleFormat,
    pub channel_count: u32,
    pub frame_rate: u32,
    pub bytes_per_frame: u32,
}

/// The location of a data chunk.
#[derive(Debug, Copy, Clone)]
pub struct DataInfo {
    pub data_offset: u64,
    pub data_byte_count: u64,
}

/// A parse failure: either the container uses a feature this library does
/// not decode, or it violates the container format.
pub enum WaveParseIssue {
    UnsupportedFeature(Seq<char>),
    Corrupt(Seq<char>),
}

/// The chunk ID that opens a RIFF container.
pub open spec fn riff_id() -> Seq<u8> {
    seq![82u8, 73u8, 70u8, 70u8]
}

/// The form type of a WAVE container.
pub open spec fn wave_id() -> Seq<u8> {
    seq![87u8, 65u8, 86u8, 69u8]
}

/// The ID of a format chunk.
pub open spec fn fmt_id() -> Seq<u8> {
    seq![102u8, 109u8, 116u8, 32u8]
}

/// The ID of a data chunk.
pub open spec fn data_id() -> Seq<u8> {
    seq![100u8, 97u8, 116u8, 97u8]
}

pub open spec fn expected_riff_text(id: Seq<u8>) -> Seq<char> {
    "Expected master chunk ID \"RIFF\", got \""@ + chars_of_bytes(id) + "\"."@
}

pub open spec fn expected_wave_text(id: Seq<u8>) -> Seq<char> {
    "Expected WAVE chunk ID \"WAVE\", got \""@ + chars_of_bytes(id) + "\"."@
}

pub open spec fn unsupported_pcm_bits_text(bits: u16) -> Seq<char> {
    "Unsupported PCM sample size: "@ + decimal_text(bits as nat) + " bits."@
}

pub open spec fn unsupported_float_bits_text(bits: u16) -> Seq<char> {
    "Unsupported floating-point sample size: "@ + decimal_text(bits as nat) + " bits."@
}

/// The codec tag of the Free Lossless Audio Codec.
pub open spec fn codec_flac() -> u16 {
    0xF1AC
}

/// The name under which an unsupported codec is reported: known tags by
/// name, unknown ones as a hexadecimal tag.
pub open spec fn codec_name_text(codec: u16) -> Seq<char> {
    if codec == codec_flac() {
        "Free Lossless Audio Codec FLAC"@
    } else {
        hex4_text(codec)
    }
}

pub open spec fn unsupported_codec_text(codec: u16) -> Seq<char> {
    "Unsupported audio codec: "@ + codec_name_text(codec) + "."@
}

pub open spec fn bytes_per_frame_text(expected: u32, got: u16) -> Seq<char> {
    "Expected "@ + decimal_text(expected as nat) + " bytes per frame, got "@ + decimal_text(
        got as nat,
    ) + "."@
}

pub open spec fn zero_channels_text() -> Seq<char> {
    "Expected a positive channel count, got 0."@
}

pub open spec fn zero_rate_text() -> Seq<char> {
    "Expected a positive sampling rate, got 0."@
}

/// The PCM codec tag.
pub open spec fn codec_pcm() -> u16 {
    0x0001
}

/// The IEEE-float codec tag.
pub open spec fn codec_float() -> u16 {
    0x0003
}

/// The extensible codec tag, resolved through the format chunk's extension.
pub open spec fn codec_extensible() -> u16 {
    0xFFFE
}

/// Resolves a codec tag and a bits-per-sample count to a supported sample
/// encoding and its bytes per sample.
pub open spec fn resolve_format(codec: u16, bits: u16) -> Result<(SampleFormat, u32), WaveParseIssue> {
    if codec == codec_pcm() {
        if bits == 8 {
            Ok((SampleFormat::U8, 1u32))
        } else if bits == 16 {
            Ok((SampleFormat::I16, 2u32))
        } else if bits == 24 {
            Ok((SampleFormat::I24, 3u32))
        } else if bits == 32 {
            Ok((SampleFormat::I32, 4u32))
        } else {
            Err(WaveParseIssue::UnsupportedFeature(unsupported_pcm_bits_text(bits)))
        }
    } else if codec == codec_float() {
        if bits == 32 {
            Ok((SampleFormat::F32, 4u32))
        } else if bits == 64 {
            Ok((SampleFormat::F64, 8u32))
        } else {
            Err(WaveParseIssue::UnsupportedFeature(unsupported_float_bits_text(bits)))
        }
    } else {
        Err(WaveParseIssue::UnsupportedFeature(unsupported_codec_text(codec)))
    }
}

/// Validates the resolved encoding against the declared channel count,
/// frame rate and bytes per frame.
pub open spec fn make_format_info(
    codec: u16,
    bits: u16,
    channel_count: u16,
    frame_rate: u32,
    bytes_per_frame: u16,
) -> Result<FormatInfo, WaveParseIssue> {
    match resolve_format(codec, bits) {
        Err(e) => Err(e),
        Ok((sample_format, bytes_per_sample)) => {
            let calculated = (bytes_per_sample * channel_count) as u32;
            if bytes_per_frame as u32 != calculated {
                Err(WaveParseIssue::Corrupt(bytes_per_frame_text(calculated, bytes_per_frame)))
            } else if channel_count == 0 {
                Err(WaveParseIssue::Corrupt(zero_channels_text()))
            } else if frame_rate == 0 {
                Err(WaveParseIssue::Corrupt(zero_rate_text()))
            } else {
                Ok(
                    FormatInfo {
                        sample_format,
                        channel_count: channel_count as u32,
                        frame_rate,
                        bytes_per_frame: bytes_per_frame as u32,
                    },
                )
            }
        },
    }
}

/// Parses the fields of a format chunk whose body starts at `body`. When the
/// chunk is larger than the minimal 16 bytes and carries an extension of at
/// least 22 bytes, bits-per-sample is re-read from the extension and an
/// extensible codec tag is resolved to the overriding one.
pub open spec fn parse_fmt_chunk(d: Seq<u8>, body: int, size: u32) -> Result<
    FormatInfo,
    WaveParseIssue,
> {
    if body + 16 > d.len() {
        Err(WaveParseIssue::Corrupt(eof_text()))
    } else {
        let codec = u16_le_at(d, body) as u16;
        let channel_count = u16_le_at(d, body + 2) as u16;
        let frame_rate = u32_le_at(d, body + 4) as u32;
        let bytes_per_frame = u16_le_at(d, body + 12) as u16;
        let bits_per_sample = u16_le_at(d, body + 14) as u16;
        if size > 16 {
            if body + 18 > d.len() {
                Err(WaveParseIssue::Corrupt(eof_text()))
            } else {
                let extension_size = u16_le_at(d, body + 16) as u16;
                if extension_size >= 22 {
                    if body + 26 > d.len() {
                        Err(WaveParseIssue::Corrupt(eof_text()))
                    } else {
                        let ext_bits = u16_le_at(d, body + 18) as u16;
                        let codec_override = u16_le_at(d, body + 24) as u16;
                        let resolved = if codec == codec_extensible() {
                            codec_override
                        } else {
                            codec
                        };
                        make_format_info(
                            resolved,
                            ext_bits,
                            channel_count,
                            frame_rate,
                            bytes_per_frame,
                        )
                    }
                } else {
                    make_format_info(
                        codec,
                        bits_per_sample,
                        channel_count,
                        frame_rate,
                        bytes_per_frame,
                    )
                }
            }
        } else {
            make_format_info(codec, bits_per_sample, channel_count, frame_rate, bytes_per_frame)
        }
    }
}

/// `i` rounded up to an even number: RIFF chunks are word-aligned.
pub open spec fn round_up_to_even_spec(i: int) -> int {
    if i % 2 == 0 {
        i
    } else {
        i + 1
    }
}

/// The metadata assembled once both a format chunk and a data chunk have
/// been seen. The frame count is the data byte count divided (truncating)
/// by the bytes per frame.
pub open spec fn assemble_info(fi: FormatInfo, di: DataInfo) -> WaveFileInfo {
    WaveFileInfo {
        sample_format: fi.sample_format,
        channel_count: fi.channel_count,
        sampling_rate: fi.frame_rate,
        frame_count: (di.data_byte_count / (fi.bytes_per_frame as u64)) as u64,
        bytes_per_frame: fi.bytes_per_frame,
        data_offset: di.data_offset,
    }
}

/// Walks the chunk list of `d` from `pos`, keeping the most recent format
/// and data chunks, until both have been seen. After each chunk the position
/// moves to the chunk's end rounded up to an even byte boundary, clamped to
/// the end of the data.
pub open spec fn parse_chunks(
    d: Seq<u8>,
    pos: int,
    fmt: Option<FormatInfo>,
    dat: Option<DataInfo>,
) -> Result<WaveFileInfo, WaveParseIssue>
    decreases d.len() - pos,
{
    if fmt is Some && dat is Some {
        Ok(assemble_info(fmt->Some_0, dat->Some_0))
    } else if pos < 0 || pos + 8 > d.len() {
        Err(WaveParseIssue::Corrupt(eof_text()))
    } else {
        let id = d.subrange(pos, pos + 4);
        let size = u32_le_at(d, pos + 4) as u32;
        let body = pos + 8;
        let rounded = round_up_to_even_spec(body + size);
        let chunk_end = if rounded <= d.len() {
            rounded
        } else {
            d.len() as int
        };
        if id == fmt_id() {
            match parse_fmt_chunk(d, body, size) {
                Err(e) => Err(e),
                Ok(fi) => parse_chunks(d, chunk_end, Some(fi), dat),
            }
        } else if id == data_id() {
            parse_chunks(
                d,
                chunk_end,
                fmt,
                Some(DataInfo { data_offset: body as u64, data_byte_count: size as u64 }),
            )
        } else {
            parse_chunks(d, chunk_end, fmt, dat)
        }
    }
}

/// The metadata of the WAVE container `d`, or the issue that makes it
/// unreadable: the mathematical statement of what `get_wave_file_info`
/// returns.
pub open spec fn wave_parse(d: Seq<u8>) -> Result<WaveFileInfo, WaveParseIssue> {
    if d.len() < 4 {
        Err(WaveParseIssue::Corrupt(eof_text()))
    } else if d.subrange(0, 4) != riff_id() {
        Err(WaveParseIssue::Corrupt(expected_riff_text(d.subrange(0, 4))))
    } else if d.len() < 12 {
        Err(WaveParseIssue::Corrupt(eof_text()))
    } else if d.subrange(8, 12) != wave_id() {
        Err(WaveParseIssue::Corrupt(expected_wave_text(d.subrange(8, 12))))
    } else {
        parse_chunks(d, 12, None, None)
    }
}

/// Whether the recoverable error `e` reports exactly the parse issue `i`.
pub open spec fn matches_issue(e: &AudioError, i: WaveParseIssue) -> bool {
    match i {
        WaveParseIssue::Corrupt(t) => e matches AudioError::CorruptFile(m) && m@ == t,
        WaveParseIssue::UnsupportedFeature(t) => e matches AudioError::UnsupportedFileFeature(m)
            && m@ == t,
    }
}

/// Whether the executable outcome `r` agrees with the specification-level
/// outcome `s`, value for value and message for message.
pub open spec fn corresponds<T>(r: &Result<T, AudioError>, s: Result<T, WaveParseIssue>) -> bool {
    match r {
        Ok(v) => s matches Ok(w) && *v == w,
        Err(e) => s matches Err(i) && matches_issue(e, i),
    }
}

/// `i` rounded up to an even number.
pub fn round_up_to_even(i: u64) -> (r: u64)
    requires
        i % 2 == 1 ==> i < u64::MAX,
    ensures
        r == round_up_to_even_spec(i as int),
{
    let is_even = i % 2 == 0;
    if is_even {
        i
    } else {
        i + 1
    }
}

/// Whether `id` is exactly the four bytes `a`, `b`, `c`, `e`.
fn four_cc_is(id: &FourCc, a: u8, b: u8, c: u8, e: u8) -> (r: bool)
    ensures
        r == (id@ == seq![a, b, c, e]),
{
    let r = id[0] == a && id[1] == b && id[2] == c && id[3] == e;
    proof {
        if r {
            assert(id@ =~= seq![a, b, c, e]);
        } else {
            assert(id@ != seq![a, b, c, e]);
        }
    }
    r
}

/// Builds the corrupt-file error that reports an unexpected chunk ID.
fn chunk_id_error(expected_riff: bool, id: &FourCc) -> (e: AudioError)
    ensures
        expected_riff ==> (e matches AudioError::CorruptFile(m) && m@ == expected_riff_text(id@)),
        !expected_riff ==> (e matches AudioError::CorruptFile(m) && m@ == expected_wave_text(id@)),
{
    let mut msg = if expected_riff {
        "Expected master chunk ID \"RIFF\", got \"".to_owned()
    } else {
        "Expected WAVE chunk ID \"WAVE\", got \"".to_owned()
    };
    msg.append(four_cc_to_string(id).as_str());
    msg.append("\".");
    proof {
        if expected_riff {
            assert(msg@ =~= expected_riff_text(id@));
        } else {
            assert(msg@ =~= expected_wave_text(id@));
        }
    }
    AudioError::CorruptFile(msg)
}

/// Resolves a codec tag and bits-per-sample to a supported encoding, or
/// reports the unsupported feature.
fn resolve_format_exec(codec: u16, bits: u16) -> (r: Result<(SampleFormat, u32), AudioError>)
    ensures
        corresponds(&r, resolve_format(codec, bits)),
{
    if codec == 0x0001 {
        match bits {
            8 => Ok((SampleFormat::U8, 1)),
            16 => Ok((SampleFormat::I16, 2)),
            24 => Ok((SampleFormat::I24, 3)),
            32 => Ok((SampleFormat::I32, 4)),
            _ => {
                let mut msg = "Unsupported PCM sample size: ".to_owned();
                msg.append(decimal_string(bits as u64).as_str());
                msg.append(" bits.");
                proof {
                    assert(msg@ =~= unsupported_pcm_bits_text(bits));
                }
                Err(AudioError::UnsupportedFileFeature(msg))
            },
        }
    } else if codec == 0x0003 {
        match bits {
            32 => Ok((SampleFormat::F32, 4)),
            64 => Ok((SampleFormat::F64, 8)),
            _ => {
                let mut msg = "Unsupported floating-point sample size: ".to_owned();
                msg.append(decimal_string(bits as u64).as_str());
                msg.append(" bits.");
                proof {
                    assert(msg@ =~= unsupported_float_bits_text(bits));
                }
                Err(AudioError::UnsupportedFileFeature(msg))
            },
        }
    } else {
        let mut msg = "Unsupported audio codec: ".to_owned();
        if codec == 0xF1AC {
            msg.append("Free Lossless Audio Codec FLAC");
        } else {
            msg.append(hex4_string(codec).as_str());
        }
        msg.append(".");
        proof {
            assert(msg@ =~= unsupported_codec_text(codec));
        }
        Err(AudioError::UnsupportedFileFeature(msg))
    }
}

/// Validates the resolved encoding against the declared layout fields.
fn make_format_info_exec(
    codec: u16,
    bits: u16,
    channel_count: u16,
    frame_rate: u32,
    bytes_per_frame: u16,
) -> (r: Result<FormatInfo, AudioError>)
    ensures
        corresponds(&r, make_format_info(codec, bits, channel_count, frame_rate, bytes_per_frame)),
{
    let (sample_format, bytes_per_sample) = match resolve_format_exec(codec, bits) {
        Ok(p) => p,
        Err(e) => {
            return Err(e);
        },
    };
    proof {
        assert(resolve_format(codec, bits) == Ok::<(SampleFormat, u32), WaveParseIssue>(
            (sample_format, bytes_per_sample),
        ));
        assert(bytes_per_sample <= 8);
        assert(bytes_per_sample * (channel_count as u32) <= 0x80000u32) by (nonlinear_arith)
            requires
                bytes_per_sample <= 8,
                channel_count <= 0xFFFF,
        ;
    }
    let calculated: u32 = bytes_per_sample * (channel_count as u32);
    if bytes_per_frame as u32 != calculated {
        let mut msg = "Expected ".to_owned();
        msg.append(decimal_string(calculated as u64).as_str());
        msg.append(" bytes per frame, got ");
        msg.append(decimal_string(bytes_per_frame as u64).as_str());
        msg.append(".");
        proof {
            assert(msg@ =~= bytes_per_frame_text(calculated, bytes_per_frame));
        }
        Err(AudioError::CorruptFile(msg))
    } else if channel_count == 0 {
        Err(AudioError::CorruptFile("Expected a positive channel count, got 0.".to_owned()))
    } else if frame_rate == 0 {
        Err(AudioError::CorruptFile("Expected a positive sampling rate, got 0.".to_owned()))
    } else {
        Ok(
            FormatInfo {
                sample_format,
                channel_count: channel_count as u32,
                frame_rate,
                bytes_per_frame: bytes_per_frame as u32,
            },
        )
    }
}

/// Reads and resolves a format chunk whose body starts at the reader's
/// current position.
fn read_format_chunk(reader: &mut ByteReader, chunk_size: u32) -> (r: Result<
    FormatInfo,
    AudioError,
>)
    requires
        old(reader).wf(),
    ensures
        final(reader).wf(),
        final(reader).stream() == old(reader).stream(),
        corresponds(&r, parse_fmt_chunk(old(reader).stream(), old(reader).cursor(), chunk_size)),
{
    let ghost d = old(reader).stream();
    let ghost body = old(reader).cursor();
    let mut codec = match reader.read_u16_le() {
        Ok(v) => v,
        Err(e) => {
            return Err(e);
        },
    };
    let channel_count = match reader.read_u16_le() {
        Ok(v) => v,
        Err(e) => {
            return Err(e);
        },
    };
    let frame_rate = match reader.read_u32_le() {
        Ok(v) => v,
        Err(e) => {
            return Err(e);
        },
    };
    // Skip bytes per second.
    match reader.read_u32_le() {
        Ok(_) => (),
        Err(e) => {
            return Err(e);
        },
    };
    let bytes_per_frame = match reader.read_u16_le() {
        Ok(v) => v,
        Err(e) => {
            return Err(e);
        },
    };
    let mut bits_per_sample = match reader.read_u16_le() {
        Ok(v) => v,
        Err(e) => {
            return Err(e);
        },
    };
    if chunk_size > 16 {
        let extension_size = match reader.read_u16_le() {
            Ok(v) => v,
            Err(e) => {
                return Err(e);
            },
        };
        if extension_size >= 22 {
            // Read extension fields.
            bits_per_sample = match reader.read_u16_le() {
                Ok(v) => v,
                Err(e) => {
                    return Err(e);
                },
            };
            // Skip channel mask.
            match reader.read_u32_le() {
                Ok(_) => (),
                Err(e) => {
                    return Err(e);
                },
            };
            let codec_override = match reader.read_u16_le() {
                Ok(v) => v,
                Err(e) => {
                    return Err(e);
                },
            };
            if codec == 0xFFFE {
                codec = codec_override;
            }
        }
    }
    make_format_info_exec(codec, bits_per_sample, channel_count, frame_rate, bytes_per_frame)
}

/// Parses the WAVE container on `reader`, which must be positioned at the
/// start of the stream, and returns its metadata: the result is exactly what
/// `wave_parse` states for the stream's bytes.
pub fn get_wave_file_info(reader: &mut ByteReader) -> (r: Result<WaveFileInfo, AudioError>)
    requires
        old(reader).wf(),
        old(reader).cursor() == 0,
    ensures
        final(reader).wf(),
        final(reader).stream() == old(reader).stream(),
        corresponds(&r, wave_parse(old(reader).stream())),
{
    let ghost d = old(reader).stream();
    // Establishes that the stream's length fits the machine word, which the
    // chunk-end arithmetic below relies on.
    let _stream_total: usize = reader.stream_len();
    proof {
        assert(d.len() <= u64::MAX);
    }
    let master_chunk_id = match reader.read_four_cc() {
        Ok(cc) => cc,
        Err(e) => {
            return Err(e);
        },
    };
    // The master chunk must be "RIFF".
    if !four_cc_is(&master_chunk_id, 82, 73, 70, 70) {
        proof {
            assert(d.subrange(0, 4) == master_chunk_id@);
        }
        return Err(chunk_id_error(true, &master_chunk_id));
    }
    // Skip chunk size.
    match reader.read_u32_le() {
        Ok(_) => (),
        Err(e) => {
            return Err(e);
        },
    };
    let wave_chunk_id = match reader.read_four_cc() {
        Ok(cc) => cc,
        Err(e) => {
            return Err(e);
        },
    };
    // The form type must be "WAVE".
    if !four_cc_is(&wave_chunk_id, 87, 65, 86, 69) {
        proof {
            assert(d.subrange(8, 12) == wave_chunk_id@);
        }
        return Err(chunk_id_error(false, &wave_chunk_id));
    }
    proof {
        assert(d.subrange(0, 4) == riff_id());
        assert(d.subrange(8, 12) == wave_id());
        assert(wave_parse(d) == parse_chunks(d, 12, None::<FormatInfo>, None::<DataInfo>));
    }

    let mut format_info: Option<FormatInfo> = None;
    let mut data_info: Option<DataInfo> = None;

    while format_info.is_none() || data_info.is_none()
        invariant
            reader.wf(),
            d == old(reader).stream(),
            d.len() <= u64::MAX,
            reader.stream() == d,
            0 <= reader.cursor() <= d.len(),
            wave_parse(d) == parse_chunks(d, reader.cursor(), format_info, data_info),
        decreases d.len() - reader.cursor(),
    {
        let ghost pos0 = reader.cursor();
        let ghost fmt0 = format_info;
        let ghost dat0 = data_info;
        let chunk_id = match reader.read_four_cc() {
            Ok(cc) => cc,
            Err(e) => {
                return Err(e);
            },
        };
        let chunk_size = match reader.read_u32_le() {
            Ok(v) => v,
            Err(e) => {
                return Err(e);
            },
        };
        let body_pos: u64 = reader.stream_position();
        proof {
            assert(body_pos == pos0 + 8);
            assert(chunk_id@ == d.subrange(pos0, pos0 + 4));
            assert(chunk_size == u32_le_at(d, pos0 + 4));
        }
        // The chunk's end, word-aligned; computed in wide arithmetic so that
        // a chunk size near the numeric limit cannot overflow.
        let sum: u128 = body_pos as u128 + chunk_size as u128;
        let rounded: u128 = if sum % 2 == 0 {
            sum
        } else {
            sum + 1
        };
        let chunk_end_target: u64 = if rounded > u64::MAX as u128 {
            u64::MAX
        } else {
            rounded as u64
        };
        proof {
            assert(rounded == round_up_to_even_spec(pos0 + 8 + chunk_size));
        }

        if four_cc_is(&chunk_id, 102, 109, 116, 32) {
            // Format chunk.
            let fi = match read_format_chunk(reader, chunk_size) {
                Ok(fi) => fi,
                Err(e) => {
                    return Err(e);
                },
            };
            format_info = Some(fi);
        } else if four_cc_is(&chunk_id, 100, 97, 116, 97) {
            // Data chunk.
            data_info = Some(DataInfo { data_offset: body_pos, data_byte_count: chunk_size as u64 });
        }
        reader.seek(chunk_end_target);
        proof {
            let rounded_spec = round_up_to_even_spec(pos0 + 8 + chunk_size);
            let chunk_end = if rounded_spec <= d.len() {
                rounded_spec
            } else {
                d.len() as int
            };
            assert(reader.cursor() == chunk_end);
            assert(wave_parse(d) == parse_chunks(d, reader.cursor(), format_info, data_info));
        }
    }

    let fi = format_info.unwrap();
    let di = data_info.unwrap();
    proof {
        assert(wave_parse(d) == Ok::<WaveFileInfo, WaveParseIssue>(assemble_info(fi, di)));
        lemma_wave_parse_wf(d);
    }
    let frame_count: u64 = di.data_byte_count / (fi.bytes_per_frame as u64);
    Ok(
        WaveFileInfo {
            sample_format: fi.sample_format,
            channel_count: fi.channel_count,
            sampling_rate: fi.frame_rate,
            frame_count,
            bytes_per_frame: fi.bytes_per_frame,
            data_offset: di.data_offset,
        },
    )
}

/// The bytes one sample of the encoding occupies.
pub open spec fn bytes_per_sample_of(f: SampleFormat) -> u32 {
    match f {
        SampleFormat::U8 => 1u32,
        SampleFormat::I16 => 2u32,
        SampleFormat::I24 => 3u32,
        SampleFormat::I32 => 4u32,
        SampleFormat::F32 => 4u32,
        SampleFormat::F64 => 8u32,
    }
}

/// What holds of every format chunk that parses successfully.
pub open spec fn format_info_wf(f: FormatInfo) -> bool {
    &&& 1 <= f.channel_count <= 0xFFFF
    &&& 1 <= f.frame_rate
    &&& f.bytes_per_frame == bytes_per_sample_of(f.sample_format) * f.channel_count
    &&& 1 <= f.bytes_per_frame <= 0xFFFF
}

/// What holds of every data chunk record the parser produces for `d`.
pub open spec fn data_info_wf(di: DataInfo, len: int) -> bool {
    &&& di.data_offset <= len
    &&& di.data_byte_count <= u32::MAX
}

/// What holds of the metadata of every WAVE container that parses
/// successfully from `len` bytes.
pub open spec fn wave_info_wf(info: WaveFileInfo, len: int) -> bool {
    &&& 1 <= info.channel_count <= 0xFFFF
    &&& 1 <= info.sampling_rate
    &&& info.bytes_per_frame == bytes_per_sample_of(info.sample_format) * info.channel_count
    &&& 1 <= info.bytes_per_frame <= 0xFFFF
    &&& info.frame_count * info.bytes_per_frame <= u32::MAX
    &&& info.data_offset <= len
}

proof fn lemma_make_format_info_wf(
    codec: u16,
    bits: u16,
    channel_count: u16,
    frame_rate: u32,
    bytes_per_frame: u16,
)
    ensures
        make_format_info(codec, bits, channel_count, frame_rate, bytes_per_frame) matches Ok(fi)
            ==> format_info_wf(fi),
{
    match make_format_info(codec, bits, channel_count, frame_rate, bytes_per_frame) {
        Ok(fi) => {
            match resolve_format(codec, bits) {
                Ok((sample_format, bytes_per_sample)) => {
                    assert(1 <= bytes_per_sample <= 8);
                    assert(1 <= channel_count);
                    assert(bytes_per_sample * channel_count >= 1) by (nonlinear_arith)
                        requires
                            bytes_per_sample >= 1,
                            channel_count >= 1,
                    ;
                    assert(bytes_per_sample * channel_count <= 8 * 0xFFFF) by (nonlinear_arith)
                        requires
                            bytes_per_sample <= 8,
                            channel_count <= 0xFFFF,
                    ;
                },
                Err(_) => {},
            }
        },
        Err(_) => {},
    }
}

proof fn lemma_parse_fmt_chunk_wf(d: Seq<u8>, body: int, size: u32)
    ensures
        parse_fmt_chunk(d, body, size) matches Ok(fi) ==> format_info_wf(fi),
{
    if body + 16 > d.len() {
    } else {
        let codec = u16_le_at(d, body) as u16;
        let channel_count = u16_le_at(d, body + 2) as u16;
        let frame_rate = u32_le_at(d, body + 4) as u32;
        let bytes_per_frame = u16_le_at(d, body + 12) as u16;
        let bits_per_sample = u16_le_at(d, body + 14) as u16;
        lemma_make_format_info_wf(codec, bits_per_sample, channel_count, frame_rate, bytes_per_frame);
        if body + 18 <= d.len() {
            let extension_size = u16_le_at(d, body + 16) as u16;
            if body + 26 <= d.len() {
                let ext_bits = u16_le_at(d, body + 18) as u16;
                let codec_override = u16_le_at(d, body + 24) as u16;
                lemma_make_format_info_wf(
                    codec_override,
                    ext_bits,
                    channel_count,
                    frame_rate,
                    bytes_per_frame,
                );
                lemma_make_format_info_wf(
                    codec,
                    ext_bits,
                    channel_count,
                    frame_rate,
                    bytes_per_frame,
                );
            }
        }
    }
}

proof fn lemma_parse_chunks_wf(d: Seq<u8>, pos: int, fmt: Option<FormatInfo>, dat: Option<DataInfo>)
    requires
        fmt matches Some(f) ==> format_info_wf(f),
        dat matches Some(x) ==> data_info_wf(x, d.len() as int),
    ensures
        parse_chunks(d, pos, fmt, dat) matches Ok(info) ==> wave_info_wf(info, d.len() as int),
    decreases d.len() - pos,
{
    if fmt is Some && dat is Some {
        let f = fmt->Some_0;
        let x = dat->Some_0;
        let info = assemble_info(f, x);
        assert(info.frame_count == x.data_byte_count / (f.bytes_per_frame as u64));
        assert(info.frame_count * info.bytes_per_frame <= x.data_byte_count) by (nonlinear_arith)
            requires
                info.bytes_per_frame >= 1,
                info.frame_count == x.data_byte_count / (info.bytes_per_frame as u64),
                info.bytes_per_frame == f.bytes_per_frame,
                x.data_byte_count >= 0,
        ;
    } else if pos < 0 || pos + 8 > d.len() {
    } else {
        let id = d.subrange(pos, pos + 4);
        let size = u32_le_at(d, pos + 4) as u32;
        let body = pos + 8;
        let rounded = round_up_to_even_spec(body + size);
        let chunk_end = if rounded <= d.len() {
            rounded
        } else {
            d.len() as int
        };
        if id == fmt_id() {
            lemma_parse_fmt_chunk_wf(d, body, size);
            match parse_fmt_chunk(d, body, size) {
                Err(_) => {},
                Ok(fi) => {
                    lemma_parse_chunks_wf(d, chunk_end, Some(fi), dat);
                },
            }
        } else if id == data_id() {
            lemma_parse_chunks_wf(
                d,
                chunk_end,
                fmt,
                Some(DataInfo { data_offset: body as u64, data_byte_count: size as u64 }),
            );
        } else {
            lemma_parse_chunks_wf(d, chunk_end, fmt, dat);
        }
    }
}

/// The metadata of every WAVE container that parses successfully is
/// well-formed: positive channel count, sampling rate and bytes per frame,
/// a data offset within the stream, and a frame count consistent with the
/// data chunk's size.
pub proof fn lemma_wave_parse_wf(d: Seq<u8>)
    ensures
        wave_parse(d) matches Ok(info) ==> wave_info_wf(info, d.len() as int),
{
    if d.len() >= 12 {
        lemma_parse_chunks_wf(d, 12, None, None);
    }
}

} // verus!
