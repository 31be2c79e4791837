//! Audio file format dispatch: a file's extension, compared
//! case-insensitively, decides which container parser opens it. The file
//! handling itself is the boundary's business; this is the decision.

use vstd::prelude::*;
use vstd::string::StrSliceExecFns;

use crate::audio_error::AudioError;

verus! {

/// The audio container kinds this library can open.
#[derive(Debug, Copy, Clone, PartialEq, Eq, Structural)]
pub enum AudioFileKind {
    /// A RIFF/WAVE container, decoded by this library's own parser.
    Wave,
    /// An Ogg Vorbis stream, decoded through the external decode engine.
    OggVorbis,
}

/// Whether `a` and `b` are the same character up to ASCII case.
pub open spec fn char_eq_ignore_ascii_case(a: char, b: char) -> bool {
    ||| a == b
    ||| (65 <= a as u32 <= 90 && a as u32 + 32 == b as u32)
    ||| (65 <= b as u32 <= 90 && b as u32 + 32 == a as u32)
}

/// Whether `s` and `t` are the same text up to ASCII case.
pub open spec fn eq_ignore_ascii_case(s: Seq<char>, t: Seq<char>) -> bool {
    s.len() == t.len() && (forall|i: int|
        0 <= i < s.len() ==> char_eq_ignore_ascii_case(s[i], t[i]))
}

/// Classifies a file extension (without its leading dot),
/// case-insensitively: `wav` is a WAVE container, `ogg` an Ogg Vorbis
/// stream, and anything else is unsupported.
pub fn classify_extension(extension: &str) -> (r: Result<AudioFileKind, AudioError>)
    ensures
        (r == Ok::<AudioFileKind, AudioError>(AudioFileKind::Wave)) == eq_ignore_ascii_case(
            extension@,
            "wav"@,
        ),
        (r == Ok::<AudioFileKind, AudioError>(AudioFileKind::OggVorbis)) == eq_ignore_ascii_case(
            extension@,
            "ogg"@,
        ),
        (r matches Err(e) ==> e is UnsupportedFileType),
        (r is Err) == (!eq_ignore_ascii_case(extension@, "wav"@) && !eq_ignore_ascii_case(
            extension@,
            "ogg"@,
        )),
    {
    proof {
        reveal_strlit("wav");
        reveal_strlit("ogg");
    }
    let n = extension.unicode_len();
    if n != 3 {
        return Err(AudioError::UnsupportedFileType);
    }
    let c0 = extension.get_char(0);
    let c1 = extension.get_char(1);
    let c2 = extension.get_char(2);
    if (c0 == 'w' || c0 == 'W') && (c1 == 'a' || c1 == 'A') && (c2 == 'v' || c2 == 'V') {
        proof {
            assert(forall|i: int|
                0 <= i < 3 ==> char_eq_ignore_ascii_case(extension@[i], "wav"@[i]));
            assert(!eq_ignore_ascii_case(extension@, "ogg"@)) by {
                assert(!char_eq_ignore_ascii_case(extension@[0], "ogg"@[0]));
            }
        }
        Ok(AudioFileKind::Wave)
    } else if (c0 == 'o' || c0 == 'O') && (c1 == 'g' || c1 == 'G') && (c2 == 'g' || c2 == 'G') {
        proof {
            assert(forall|i: int|
                0 <= i < 3 ==> char_eq_ignore_ascii_case(extension@[i], "ogg"@[i]));
            assert(!eq_ignore_ascii_case(extension@, "wav"@)) by {
                assert(!char_eq_ignore_ascii_case(extension@[0], "wav"@[0]));
            }
        }
        Ok(AudioFileKind::OggVorbis)
    } else {
        proof {
            if eq_ignore_ascii_case(extension@, "wav"@) {
                assert(char_eq_ignore_ascii_case(extension@[0], "wav"@[0]));
                assert(char_eq_ignore_ascii_case(extension@[1], "wav"@[1]));
                assert(char_eq_ignore_ascii_case(extension@[2], "wav"@[2]));
            }
            if eq_ignore_ascii_case(extension@, "ogg"@) {
                assert(char_eq_ignore_ascii_case(extension@[0], "ogg"@[0]));
                assert(char_eq_ignore_ascii_case(extension@[1], "ogg"@[1]));
                assert(char_eq_ignore_ascii_case(extension@[2], "ogg"@[2]));
            }
        }
        Err(AudioError::UnsupportedFileType)
    }
}

} // verus!
