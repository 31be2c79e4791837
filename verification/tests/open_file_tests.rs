use rhubarb_audio::audio_error::AudioError;
use rhubarb_audio::open_audio_file::{classify_extension, AudioFileKind};

#[test]
fn classifies_known_extensions() {
    assert_eq!(classify_extension("wav").unwrap(), AudioFileKind::Wave);
    assert_eq!(classify_extension("ogg").unwrap(), AudioFileKind::OggVorbis);
}

#[test]
fn ignores_ascii_case() {
    assert_eq!(classify_extension("WAV").unwrap(), AudioFileKind::Wave);
    assert_eq!(classify_extension("Wav").unwrap(), AudioFileKind::Wave);
    assert_eq!(classify_extension("wAv").unwrap(), AudioFileKind::Wave);
    assert_eq!(classify_extension("OGG").unwrap(), AudioFileKind::OggVorbis);
    assert_eq!(classify_extension("Ogg").unwrap(), AudioFileKind::OggVorbis);
}

#[test]
fn rejects_unknown_extensions() {
    assert!(matches!(classify_extension("mp3"), Err(AudioError::UnsupportedFileType)));
    assert!(matches!(classify_extension("wave"), Err(AudioError::UnsupportedFileType)));
    assert!(matches!(classify_extension("wa"), Err(AudioError::UnsupportedFileType)));
    assert!(matches!(classify_extension(""), Err(AudioError::UnsupportedFileType)));
    assert!(matches!(classify_extension("wäv"), Err(AudioError::UnsupportedFileType)));
}
