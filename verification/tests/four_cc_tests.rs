use rhubarb_audio::audio_error::AudioError;
use rhubarb_audio::byte_reader::ByteReader;
use rhubarb_audio::four_cc::{four_cc_to_string, ReadFourCcExt};

#[test]
fn returns_a_string_representation() {
    assert_eq!(four_cc_to_string(b"WAVE"), "WAVE".to_owned());
    assert_eq!(four_cc_to_string(b"fmt "), "fmt ".to_owned());
}

#[test]
fn supports_arbitrary_bytes() {
    assert_eq!(four_cc_to_string(&[0xa9, 0xff, 0x00, 0x0a]), "\u{a9}\u{ff}\0\n".to_owned());
}

#[test]
fn reads_from_a_reader() {
    let mut reader = ByteReader::new(b"ABCDEFGH".to_vec());
    assert_eq!(reader.read_four_cc().unwrap(), *b"ABCD");
    assert_eq!(reader.read_four_cc().unwrap(), *b"EFGH");
}

#[test]
fn fails_when_reading_past_the_end() {
    let mut reader = ByteReader::new(b"AB".to_vec());
    let error = reader.read_four_cc().unwrap_err();
    assert_eq!(error, AudioError::CorruptFile("Unexpected end of file.".to_owned()));
}
