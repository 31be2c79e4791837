use rhubarb_audio::audio_clip::SampleReader;
use rhubarb_audio::audio_error::AudioError;
use rhubarb_audio::memory_audio_clip::MemoryAudioClip;
use rhubarb_audio::ogg_audio_clip::{batch_violates_contract, OggAudioClip, OggFileSampleReader};
use rhubarb_audio::resampled_audio_clip::{
    check_delivered, scaled_count, ConverterType, ResampledAudioClip, INPUT_BUFFER_SIZE,
};
use rhubarb_audio::vorbis_file::{clamp_request_frames, translate_engine_status, EngineStatus, Metadata};

#[test]
fn scales_counts_with_rounding() {
    assert_eq!(scaled_count(24000, 44100, 48000), 22050);
    assert_eq!(scaled_count(0, 16000, 22025), 0);
    // Rounding: 1 * 3 / 2 = 1.5 rounds away from zero.
    assert_eq!(scaled_count(1, 3, 2), 2);
    // 1 / 3 rounds down.
    assert_eq!(scaled_count(1, 1, 3), 0);
}

#[test]
fn resampled_provides_length_and_rate() {
    let inner = MemoryAudioClip::new(&vec![0.0f32; 24000], 48000);
    let resampled = ResampledAudioClip::new(inner, 44100);
    assert_eq!(resampled.len(), 22050);
    assert_eq!(resampled.sampling_rate(), 44100);
    assert_eq!(resampled.duration(), 500_000_000);
    assert!(!resampled.is_empty());
}

#[test]
fn resampled_supports_zero_samples() {
    let inner: MemoryAudioClip<f32> = MemoryAudioClip::new(&[], 22025);
    let resampled = ResampledAudioClip::new(inner, 16000);
    assert_eq!(resampled.len(), 0);
    assert_eq!(resampled.sampling_rate(), 16000);
    assert!(resampled.is_empty());

    let mut reader = resampled.create_sample_reader().unwrap();
    reader.set_position(0);
    assert_eq!(reader.position(), 0);
}

#[test]
fn resampled_reader_defers_seeks() {
    let samples: Vec<f32> = (0..1000).map(|i| i as f32).collect();
    let inner = MemoryAudioClip::new(&samples, 48000);
    let resampled = ResampledAudioClip::new(inner, 24000);
    let mut reader = resampled.create_sample_reader().unwrap();
    assert_eq!(reader.len(), 500);

    // Several seeks collapse into one engine repositioning.
    reader.set_position(400);
    reader.set_position(10);
    reader.set_position(100);
    assert_eq!(reader.position(), 100);
    let reset = reader.resolve_seek();
    assert!(reset);
    // View position 100 at 24 kHz maps to inner frame 200 at 48 kHz.
    let pulled = reader.pull().unwrap();
    assert_eq!(pulled[0], 200.0);

    // Without a pending seek, nothing is to be done.
    let reset = reader.resolve_seek();
    assert!(!reset);

    // A seek to the current position is a no-op.
    reader.set_position(100);
    let reset = reader.resolve_seek();
    assert!(!reset);
}

#[test]
fn resampled_detour_back_still_resets_the_engine() {
    // A seek away and back to the current position is recorded as a
    // pending repositioning: the engine's interpolation state is reset,
    // where a direct no-op seek would leave it untouched.
    let inner = MemoryAudioClip::new(&vec![0.0f32; 1000], 48000);
    let resampled = ResampledAudioClip::new(inner, 48000);
    let mut reader = resampled.create_sample_reader().unwrap();
    reader.set_position(5);
    reader.set_position(0);
    assert_eq!(reader.position(), 0);
    assert!(reader.resolve_seek());

    let mut untouched = resampled.create_sample_reader().unwrap();
    untouched.set_position(0);
    assert!(!untouched.resolve_seek());
}

#[test]
fn resampled_reader_pulls_in_buffer_sized_batches() {
    let samples: Vec<f32> = (0..700).map(|i| i as f32).collect();
    let inner = MemoryAudioClip::new(&samples, 48000);
    let resampled = ResampledAudioClip::new(inner, 48000);
    let mut reader = resampled.create_sample_reader().unwrap();

    let first = reader.pull().unwrap();
    assert_eq!(first.len(), INPUT_BUFFER_SIZE);
    assert_eq!(first[0], 0.0);
    assert_eq!(first[499], 499.0);

    let second = reader.pull().unwrap();
    assert_eq!(second.len(), 200);
    assert_eq!(second[0], 500.0);

    // At the inner end the pull is empty; the engine's zero-fill policy
    // covers the rest.
    let third = reader.pull().unwrap();
    assert!(third.is_empty());
}

#[test]
fn resampled_reader_tracks_position() {
    let inner = MemoryAudioClip::new(&vec![0.0f32; 1000], 48000);
    let resampled = ResampledAudioClip::new(inner, 24000);
    let mut reader = resampled.create_sample_reader().unwrap();
    reader.finish_read(100);
    assert_eq!(reader.position(), 100);
    reader.finish_read(400);
    assert_eq!(reader.position(), 500);
    assert_eq!(reader.remainder(), 0);
}

#[test]
fn reports_short_engine_delivery() {
    assert!(check_delivered(100, 100).is_none());
    assert!(check_delivered(0, 0).is_none());
    let message = check_delivered(100, 99).unwrap();
    assert_eq!(message, "Expected 100 samples, got 99.");
}

#[test]
fn exposes_converter_codes() {
    assert_eq!(ConverterType::SincBestQuality.code(), 0);
    assert_eq!(ConverterType::SincMediumQuality.code(), 1);
    assert_eq!(ConverterType::SincFastest.code(), 2);
    assert_eq!(ConverterType::ZeroOrderHold.code(), 3);
    assert_eq!(ConverterType::Linear.code(), 4);
}

fn metadata() -> Metadata {
    Metadata { frame_count: 44100, sampling_rate: 44100, channel_count: 2 }
}

#[test]
fn ogg_clip_provides_metadata() {
    let clip = OggAudioClip::new(metadata()).unwrap();
    assert_eq!(clip.len(), 44100);
    assert_eq!(clip.sampling_rate(), 44100);
    assert_eq!(clip.duration(), 1_000_000_000);
    assert!(!clip.is_empty());
}

#[test]
fn ogg_reader_defers_seeks() {
    let mut reader = OggFileSampleReader::new(metadata());
    assert_eq!(reader.len(), 44100);
    assert_eq!(reader.position(), 0);

    // No seek happened yet and the engine is at the start: nothing to do.
    assert_eq!(reader.resolve_seek(), None);

    reader.set_position(1000);
    reader.set_position(300);
    assert_eq!(reader.position(), 300);
    // The engine seeks once, to the last requested position.
    assert_eq!(reader.resolve_seek(), Some(300));
    assert_eq!(reader.resolve_seek(), None);

    reader.advance(100);
    assert_eq!(reader.position(), 400);
    assert_eq!(reader.remainder(), 43700);
    // Sequential reads stay seek-free.
    assert_eq!(reader.resolve_seek(), None);
}

#[test]
fn clamps_engine_request_sizes() {
    assert_eq!(clamp_request_frames(0), 0);
    assert_eq!(clamp_request_frames(4096), 4096);
    assert_eq!(clamp_request_frames(usize::MAX), i32::MAX);
}

#[test]
fn classifies_zero_progress_batches() {
    assert!(batch_violates_contract(0, 10));
    assert!(!batch_violates_contract(5, 10));
    assert!(!batch_violates_contract(0, 0));
}

#[test]
fn translates_engine_status_codes() {
    assert!(matches!(translate_engine_status(17, None), EngineStatus::Success(17)));
    assert!(matches!(translate_engine_status(0, None), EngineStatus::Informational(_)) == false);
    assert!(matches!(translate_engine_status(-3, None), EngineStatus::Informational(-3)));

    // A captured I/O error is preferred over the code-derived message.
    match translate_engine_status(-132, Some("disk unplugged".to_owned())) {
        EngineStatus::Failure(AudioError::IoError(m)) => assert_eq!(m, "disk unplugged"),
        _ => panic!("expected the captured I/O error"),
    }

    match translate_engine_status(-128, None) {
        EngineStatus::Failure(AudioError::IoError(m)) => {
            assert_eq!(m, "Read error while fetching compressed data for decoding.")
        },
        _ => panic!("expected an I/O error"),
    }
    match translate_engine_status(-132, None) {
        EngineStatus::Failure(AudioError::CorruptFile(m)) => {
            assert_eq!(m, "The given file was not recognized as Ogg Vorbis data.")
        },
        _ => panic!("expected a corrupt-file error"),
    }
    match translate_engine_status(-133, None) {
        EngineStatus::Failure(AudioError::CorruptFile(m)) => {
            assert_eq!(m, "Ogg Vorbis stream contains a corrupted or undecipherable header.")
        },
        _ => panic!("expected a corrupt-file error"),
    }
    match translate_engine_status(-134, None) {
        EngineStatus::Failure(AudioError::UnsupportedFileFeature(m)) => {
            assert_eq!(m, "Unsupported bit stream format revision.")
        },
        _ => panic!("expected an unsupported-feature error"),
    }
    match translate_engine_status(-135, None) {
        EngineStatus::Failure(AudioError::UnsupportedFileFeature(m)) => {
            assert_eq!(m, "Packet is not an audio packet.")
        },
        _ => panic!("expected an unsupported-feature error"),
    }
    match translate_engine_status(-136, None) {
        EngineStatus::Failure(AudioError::CorruptFile(m)) => assert_eq!(m, "Error in packet."),
        _ => panic!("expected a corrupt-file error"),
    }
    match translate_engine_status(-137, None) {
        EngineStatus::Failure(AudioError::CorruptFile(m)) => assert_eq!(
            m,
            "Link in Vorbis data stream is not decipherable due to garbage or corruption."
        ),
        _ => panic!("expected a corrupt-file error"),
    }

    match translate_engine_status(-129, None) {
        EngineStatus::Fault(m) => {
            assert_eq!(m, "Internal logic fault; indicates a bug or heap/stack corruption.")
        },
        _ => panic!("expected a fault"),
    }
    match translate_engine_status(-130, None) {
        EngineStatus::Fault(m) => assert_eq!(m, "Feature not implemented."),
        _ => panic!("expected a fault"),
    }
    match translate_engine_status(-138, None) {
        EngineStatus::Fault(m) => assert_eq!(m, "The given stream is not seekable."),
        _ => panic!("expected a fault"),
    }
    match translate_engine_status(-999, None) {
        EngineStatus::Fault(m) => {
            assert_eq!(m, "An unexpected Vorbis error with code -999 occurred.")
        },
        _ => panic!("expected a fault"),
    }
}
