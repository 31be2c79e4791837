//! The error taxonomy for working with audio: every recoverable failure a
//! source can report is one of these four kinds.

use vstd::prelude::*;
use vstd::string::StringExecFns;

verus! {

/// The error type for working with audio.
#[derive(Debug)]
pub enum AudioError {
    /// This library doesn't know how to read audio files with the current
    /// file's extension.
    UnsupportedFileType,
    /// The current file uses an unsupported feature, such as an audio codec
    /// or a sample format. Carries a more detailed error message.
    UnsupportedFileFeature(String),
    /// The current file doesn't adhere to the expected file format. Carries a
    /// more detailed error message.
    CorruptFile(String),
    /// An I/O error occurred trying to read from or write to the current
    /// file. Carries the underlying I/O error's message.
    IoError(String),
}

/// The message of the corrupt-file error that stands for an unexpected end of
/// the byte stream.
pub open spec fn eof_text() -> Seq<char> {
    "Unexpected end of file."@
}

/// The display message of `e`.
pub open spec fn message_text(e: &AudioError) -> Seq<char> {
    match e {
        AudioError::UnsupportedFileType => "Unsupported audio file type."@,
        AudioError::UnsupportedFileFeature(m) => "Unsupported audio file feature: "@ + m@,
        AudioError::CorruptFile(m) => "Audio file appears to be corrupt: "@ + m@,
        AudioError::IoError(m) => "Error reading audio file: "@ + m@,
    }
}

/// Whether `e` is the corrupt-file error for a truncated stream.
pub open spec fn is_eof_error(e: &AudioError) -> bool {
    e matches AudioError::CorruptFile(m) && m@ == eof_text()
}

impl AudioError {
    /// The human-readable message describing this error.
    pub fn message(&self) -> (s: String)
        ensures
            s@ == message_text(self),
    {
        match self {
            AudioError::UnsupportedFileType => "Unsupported audio file type.".to_owned(),
            AudioError::UnsupportedFileFeature(m) => {
                let mut s = "Unsupported audio file feature: ".to_owned();
                s.append(m.as_str());
                s
            },
            AudioError::CorruptFile(m) => {
                let mut s = "Audio file appears to be corrupt: ".to_owned();
                s.append(m.as_str());
                s
            },
            AudioError::IoError(m) => {
                let mut s = "Error reading audio file: ".to_owned();
                s.append(m.as_str());
                s
            },
        }
    }
}

/// The corrupt-file error reporting an unexpected end of the byte stream.
pub fn unexpected_eof_error() -> (e: AudioError)
    ensures
        is_eof_error(&e),
{
    AudioError::CorruptFile("Unexpected end of file.".to_owned())
}

/// Converts an I/O failure, described by whether it was an unexpected
/// end-of-file condition and by its message, into the error taxonomy: an
/// unexpected end of file is a corrupt file, anything else an I/O error.
pub fn from_io_error(unexpected_eof: bool, message: String) -> (e: AudioError)
    ensures
        unexpected_eof ==> is_eof_error(&e),
        !unexpected_eof ==> (e matches AudioError::IoError(m) && m == message),
{
    if unexpected_eof {
        unexpected_eof_error()
    } else {
        AudioError::IoError(message)
    }
}

impl PartialEq for AudioError {
    fn eq(&self, other: &Self) -> (r: bool) {
        match (self, other) {
            (AudioError::UnsupportedFileType, AudioError::UnsupportedFileType) => true,
            (
                AudioError::UnsupportedFileFeature(left_message),
                AudioError::UnsupportedFileFeature(right_message),
            ) => *left_message == *right_message,
            (AudioError::CorruptFile(left_message), AudioError::CorruptFile(right_message)) => {
                *left_message == *right_message
            },
            (AudioError::IoError(left_message), AudioError::IoError(right_message)) => {
                *left_message == *right_message
            },
            _ => false,
        }
    }
}

impl vstd::std_specs::cmp::PartialEqSpecImpl for AudioError {
    open spec fn obeys_eq_spec() -> bool {
        true
    }

    open spec fn eq_spec(&self, other: &Self) -> bool {
        match (self, other) {
            (AudioError::UnsupportedFileType, AudioError::UnsupportedFileType) => true,
            (
                AudioError::UnsupportedFileFeature(left_message),
                AudioError::UnsupportedFileFeature(right_message),
            ) => left_message@ == right_message@,
            (AudioError::CorruptFile(left_message), AudioError::CorruptFile(right_message)) => {
                left_message@ == right_message@
            },
            (AudioError::IoError(left_message), AudioError::IoError(right_message)) => {
                left_message@ == right_message@
            },
            _ => false,
        }
    }
}

} // verus!
