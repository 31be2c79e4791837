use rhubarb_audio::audio_error::{from_io_error, unexpected_eof_error, AudioError};

#[test]
fn provides_display_messages() {
    let error = AudioError::UnsupportedFileType;
    assert_eq!(error.message(), "Unsupported audio file type.".to_owned());

    let error = AudioError::UnsupportedFileFeature("Spacial audio not supported.".to_owned());
    assert_eq!(
        error.message(),
        "Unsupported audio file feature: Spacial audio not supported.".to_owned()
    );

    let error = AudioError::CorruptFile("Checksum doesn't match.".to_owned());
    assert_eq!(
        error.message(),
        "Audio file appears to be corrupt: Checksum doesn't match.".to_owned()
    );

    let error = AudioError::IoError("entity not found".to_owned());
    assert_eq!(error.message(), "Error reading audio file: entity not found".to_owned());
}

#[test]
fn converts_from_io_error() {
    let error = from_io_error(false, "entity not found".to_owned());
    assert!(matches!(error, AudioError::IoError(m) if m == "entity not found"));
}

#[test]
fn treats_unexpected_eof_as_corrupt() {
    let error = from_io_error(true, "whatever the underlying message was".to_owned());
    assert!(matches!(error, AudioError::CorruptFile(m) if m == "Unexpected end of file."));
    assert_eq!(
        unexpected_eof_error(),
        AudioError::CorruptFile("Unexpected end of file.".to_owned())
    );
}

#[test]
fn supports_partial_equality() {
    assert_eq!(AudioError::UnsupportedFileType, AudioError::UnsupportedFileType);
    assert_ne!(AudioError::UnsupportedFileType, AudioError::CorruptFile("".to_owned()));

    assert_eq!(
        AudioError::CorruptFile("Foo".to_owned()),
        AudioError::CorruptFile("Foo".to_owned())
    );
    assert_ne!(
        AudioError::CorruptFile("Foo".to_owned()),
        AudioError::CorruptFile("Bar".to_owned())
    );

    assert_eq!(
        AudioError::IoError("disk on fire".to_owned()),
        AudioError::IoError("disk on fire".to_owned())
    );
    assert_ne!(
        AudioError::IoError("disk on fire".to_owned()),
        AudioError::IoError("disk underwater".to_owned())
    );
    assert_ne!(
        AudioError::UnsupportedFileFeature("Foo".to_owned()),
        AudioError::CorruptFile("Foo".to_owned())
    );
}
