//! The decode-engine boundary of the Ogg Vorbis path. The engine itself is
//! an external collaborator; this module holds what the library decides
//! about it: the cached stream metadata, and the translation of the
//! engine's status codes into the error taxonomy — negative codes become
//! recoverable errors, the hole condition is only informational, and the
//! codes that can only mean an internal bug abort the operation.

use vstd::prelude::*;
use vstd::string::StringExecFns;

use crate::audio_error::AudioError;
use crate::text::{signed_decimal_string, signed_decimal_text};

verus! {

/// The stream metadata the decode engine reports, fetched once and cached.
#[derive(Debug, Copy, Clone, PartialEq, Eq, Structural)]
pub struct Metadata {
    pub frame_count: u64,
    pub sampling_rate: u32,
    pub channel_count: u32,
}

/// The informational hole condition.
pub const OV_HOLE: i64 = -3;

/// A read error while fetching compressed data.
pub const OV_EREAD: i64 = -128;

/// An internal logic fault.
pub const OV_EFAULT: i64 = -129;

/// A feature the engine does not implement.
pub const OV_EIMPL: i64 = -130;

/// An invalid or incompletely initialized argument.
pub const OV_EINVAL: i64 = -131;

/// The data is not recognized as Ogg Vorbis.
pub const OV_ENOTVORBIS: i64 = -132;

/// A corrupted or undecipherable stream header.
pub const OV_EBADHEADER: i64 = -133;

/// An unsupported bitstream format revision.
pub const OV_EVERSION: i64 = -134;

/// A packet that is not an audio packet.
pub const OV_ENOTAUDIO: i64 = -135;

/// An error in a packet.
pub const OV_EBADPACKET: i64 = -136;

/// An undecipherable link in the stream.
pub const OV_EBADLINK: i64 = -137;

/// A stream that is not seekable.
pub const OV_ENOSEEK: i64 = -138;

/// How a decode-engine status code is to be handled.
pub enum EngineStatus {
    /// A non-negative code: a valid result, carried through unchanged.
    Success(i64),
    /// The hole condition: technically an error code, but only
    /// informational, so the result is treated as valid.
    Informational(i64),
    /// A recoverable error of the taxonomy, to be returned to the caller.
    Failure(AudioError),
    /// A caller or engine bug: the operation must abort with this message.
    Fault(String),
}

/// The abort message for a status code this library does not know.
pub open spec fn unexpected_code_text(code: i64) -> Seq<char> {
    "An unexpected Vorbis error with code "@ + signed_decimal_text(code as int) + " occurred."@
}

/// What `translate_engine_status` must return for `code`, given the
/// captured I/O error message `captured`, if one was captured.
pub open spec fn engine_status_matches(code: i64, captured: Option<Seq<char>>, r: EngineStatus) -> bool {
    if code >= 0 {
        r matches EngineStatus::Success(c) && c == code
    } else if code == OV_HOLE {
        r matches EngineStatus::Informational(c) && c == code
    } else if captured is Some {
        r matches EngineStatus::Failure(e) && e matches AudioError::IoError(m) && m@
            == captured->Some_0
    } else if code == OV_EREAD {
        r matches EngineStatus::Failure(e) && e matches AudioError::IoError(m) && m@
            == "Read error while fetching compressed data for decoding."@
    } else if code == OV_EFAULT {
        r matches EngineStatus::Fault(m) && m@
            == "Internal logic fault; indicates a bug or heap/stack corruption."@
    } else if code == OV_EIMPL {
        r matches EngineStatus::Fault(m) && m@ == "Feature not implemented."@
    } else if code == OV_EINVAL {
        r matches EngineStatus::Fault(m) && m@
            == "Either an invalid argument, or incompletely initialized argument passed to a call."@
    } else if code == OV_ENOTVORBIS {
        r matches EngineStatus::Failure(e) && e matches AudioError::CorruptFile(m) && m@
            == "The given file was not recognized as Ogg Vorbis data."@
    } else if code == OV_EBADHEADER {
        r matches EngineStatus::Failure(e) && e matches AudioError::CorruptFile(m) && m@
            == "Ogg Vorbis stream contains a corrupted or undecipherable header."@
    } else if code == OV_EVERSION {
        r matches EngineStatus::Failure(e) && e matches AudioError::UnsupportedFileFeature(m) && m@
            == "Unsupported bit stream format revision."@
    } else if code == OV_ENOTAUDIO {
        r matches EngineStatus::Failure(e) && e matches AudioError::UnsupportedFileFeature(m) && m@
            == "Packet is not an audio packet."@
    } else if code == OV_EBADPACKET {
        r matches EngineStatus::Failure(e) && e matches AudioError::CorruptFile(m) && m@
            == "Error in packet."@
    } else if code == OV_EBADLINK {
        r matches EngineStatus::Failure(e) && e matches AudioError::CorruptFile(m) && m@
            == "Link in Vorbis data stream is not decipherable due to garbage or corruption."@
    } else if code == OV_ENOSEEK {
        r matches EngineStatus::Fault(m) && m@ == "The given stream is not seekable."@
    } else {
        r matches EngineStatus::Fault(m) && m@ == unexpected_code_text(code)
    }
}

/// How many frames to ask the decode engine for in one call: the frames
/// still owed, clamped to the engine's signed 32-bit request size.
pub fn clamp_request_frames(remaining: usize) -> (r: i32)
    ensures
        remaining <= i32::MAX ==> r == remaining,
        remaining > i32::MAX ==> r == i32::MAX,
{
    if remaining > i32::MAX as usize {
        i32::MAX
    } else {
        remaining as i32
    }
}

/// Translates a decode-engine status code. A captured I/O error object is
/// preferred over a code-derived message, since it is more precise.
pub fn translate_engine_status(code: i64, captured_io_message: Option<String>) -> (r: EngineStatus)
    ensures
        engine_status_matches(
            code,
            match captured_io_message {
                Some(m) => Some(m@),
                None => None,
            },
            r,
        ),
{
    if code >= 0 {
        // A non-negative value is always valid.
        return EngineStatus::Success(code);
    }
    if code == OV_HOLE {
        return EngineStatus::Informational(code);
    }
    // If an I/O error object was captured at the byte-stream boundary, it
    // is probably more precise than an error code.
    match captured_io_message {
        Some(message) => EngineStatus::Failure(AudioError::IoError(message)),
        None => {
            if code == OV_EREAD {
                EngineStatus::Failure(
                    AudioError::IoError(
                        "Read error while fetching compressed data for decoding.".to_owned(),
                    ),
                )
            } else if code == OV_EFAULT {
                EngineStatus::Fault(
                    "Internal logic fault; indicates a bug or heap/stack corruption.".to_owned(),
                )
            } else if code == OV_EIMPL {
                EngineStatus::Fault("Feature not implemented.".to_owned())
            } else if code == OV_EINVAL {
                EngineStatus::Fault(
                    "Either an invalid argument, or incompletely initialized argument passed to a call.".to_owned(),
                )
            } else if code == OV_ENOTVORBIS {
                EngineStatus::Failure(
                    AudioError::CorruptFile(
                        "The given file was not recognized as Ogg Vorbis data.".to_owned(),
                    ),
                )
            } else if code == OV_EBADHEADER {
                EngineStatus::Failure(
                    AudioError::CorruptFile(
                        "Ogg Vorbis stream contains a corrupted or undecipherable header.".to_owned(),
                    ),
                )
            } else if code == OV_EVERSION {
                EngineStatus::Failure(
                    AudioError::UnsupportedFileFeature(
                        "Unsupported bit stream format revision.".to_owned(),
                    ),
                )
            } else if code == OV_ENOTAUDIO {
                EngineStatus::Failure(
                    AudioError::UnsupportedFileFeature("Packet is not an audio packet.".to_owned()),
                )
            } else if code == OV_EBADPACKET {
                EngineStatus::Failure(AudioError::CorruptFile("Error in packet.".to_owned()))
            } else if code == OV_EBADLINK {
                EngineStatus::Failure(
                    AudioError::CorruptFile(
                        "Link in Vorbis data stream is not decipherable due to garbage or corruption.".to_owned(),
                    ),
                )
            } else if code == OV_ENOSEEK {
                // This would indicate a bug, since the byte stream this
                // library supplies is always seekable.
                EngineStatus::Fault("The given stream is not seekable.".to_owned())
            } else {
                let mut msg = "An unexpected Vorbis error with code ".to_owned();
                msg.append(signed_decimal_string(code).as_str());
                msg.append(" occurred.");
                proof {
                    assert(msg@ =~= unexpected_code_text(code));
                }
                EngineStatus::Fault(msg)
            }
        },
    }
}

} // verus!
