use rhubarb_audio::audio_clip::{AudioClip, SampleReader};
use rhubarb_audio::audio_filters::AudioFilters;
use rhubarb_audio::memory_audio_clip::MemoryAudioClip;
use rhubarb_audio::sample_reader_assertions::{check_read_size, check_seek_position};
use rhubarb_audio::segment::{check_segment_bounds, Segment};

fn clip() -> MemoryAudioClip<f32> {
    MemoryAudioClip::new(&[0.0, 0.1, 0.2, 0.3, 0.4, 0.5, 0.6, 0.7, 0.8, 0.9], 16000)
}

#[test]
fn provides_length() {
    assert_eq!(clip().len(), 10);
}

#[test]
fn provides_sampling_rate() {
    assert_eq!(clip().sampling_rate(), 16000);
}

#[test]
fn provides_duration() {
    let clip: MemoryAudioClip<f32> = MemoryAudioClip::new(&[], 44100);
    assert_eq!(clip.duration(), 0);

    let clip: MemoryAudioClip<f32> = MemoryAudioClip::new(&vec![0.0f32; 4410], 44100);
    assert_eq!(clip.duration(), 100_000_000);

    let clip: MemoryAudioClip<f32> = MemoryAudioClip::new(&[0.25], 1_000_000);
    assert_eq!(clip.duration(), 1_000);
}

#[test]
fn provides_is_empty() {
    let empty: MemoryAudioClip<f32> = MemoryAudioClip::new(&[], 44100);
    assert!(empty.is_empty());
    assert!(!clip().is_empty());
}

#[test]
fn supports_zero_samples() {
    let clip: MemoryAudioClip<f32> = MemoryAudioClip::new(&[], 16000);
    assert_eq!(clip.len(), 0);
    assert_eq!(clip.sampling_rate(), 16000);

    let mut sample_reader = clip.create_sample_reader().unwrap();
    assert!(sample_reader.read(0).unwrap().is_empty());
    sample_reader.set_position(0);
}

#[test]
fn position_is_initially_0() {
    let reader = clip().create_sample_reader().unwrap();
    assert_eq!(reader.position(), 0);
}

#[test]
fn reads_samples_up_to_the_end() {
    let clip = clip();
    let mut reader = clip.create_sample_reader().unwrap();
    assert_eq!(reader.read(3).unwrap(), vec![0.0, 0.1, 0.2]);
    assert_eq!(reader.read(3).unwrap(), vec![0.3, 0.4, 0.5]);
    assert_eq!(reader.read(4).unwrap(), vec![0.6, 0.7, 0.8, 0.9]);
    assert_eq!(reader.remainder(), 0);
}

#[test]
fn seeks() {
    let clip = clip();
    let mut reader = clip.create_sample_reader().unwrap();
    reader.set_position(2);
    assert_eq!(reader.read(3).unwrap(), vec![0.2, 0.3, 0.4]);

    reader.set_position(1);
    assert_eq!(reader.read(3).unwrap(), vec![0.1, 0.2, 0.3]);

    assert_eq!(reader.read(3).unwrap(), vec![0.4, 0.5, 0.6]);
}

#[test]
fn seeks_up_to_the_end() {
    let clip = clip();
    let mut reader = clip.create_sample_reader().unwrap();
    reader.set_position(10);
    assert!(reader.read(0).unwrap().is_empty());
    assert_eq!(reader.position(), 10);
}

#[test]
fn round_trips_bit_identically() {
    // No lossy transform happens between construction and reading.
    let samples: Vec<f32> = vec![0.0, -0.0, 1.0, -1.0, f32::MIN_POSITIVE, 0.1, 1.0e-40, 0.999];
    let clip = MemoryAudioClip::new(&samples, 48000);
    let mut reader = clip.create_sample_reader().unwrap();
    let back = reader.read(samples.len()).unwrap();
    assert_eq!(back.len(), samples.len());
    for i in 0..samples.len() {
        assert_eq!(back[i].to_bits(), samples[i].to_bits());
    }
}

#[test]
fn reports_seek_violation() {
    assert!(check_seek_position(10, 10).is_none());
    let message = check_seek_position(11, 10).unwrap();
    assert_eq!(message, "Attempting to seek to position 11 of 10-frame audio clip.");
}

#[test]
fn reports_read_violation() {
    assert!(check_read_size(8, 2, 10).is_none());
    let message = check_read_size(8, 3, 10).unwrap();
    assert_eq!(message, "Attempting to read up to position 11 of 10-frame audio clip.");
}

fn segment() -> Segment<MemoryAudioClip<f32>> {
    let inner_clip = MemoryAudioClip::new(
        &[0.0, 0.1, 0.2, 0.3, 0.4, 0.5, 0.6, 0.7, 0.8, 0.9, 1.0],
        16000,
    );
    Segment::new(inner_clip, 1, 9)
}

#[test]
fn segment_provides_length() {
    assert_eq!(segment().len(), 8);
}

#[test]
fn segment_provides_sampling_rate() {
    assert_eq!(segment().sampling_rate(), 16000);
}

#[test]
fn segment_supports_zero_samples() {
    let inner_clip: MemoryAudioClip<f32> = MemoryAudioClip::new(&[], 16000);
    let segment = Segment::new(inner_clip, 0, 0);
    assert_eq!(segment.len(), 0);
    assert_eq!(segment.sampling_rate(), 16000);

    let mut sample_reader = segment.create_sample_reader().unwrap();
    assert!(sample_reader.read(0).unwrap().is_empty());
    sample_reader.set_position(0);
}

#[test]
fn segment_position_is_initially_0() {
    let reader = segment().create_sample_reader().unwrap();
    assert_eq!(reader.position(), 0);
}

#[test]
fn segment_reads_samples_up_to_the_end() {
    let segment = segment();
    let mut reader = segment.create_sample_reader().unwrap();
    assert_eq!(reader.read(3).unwrap(), vec![0.1, 0.2, 0.3]);
    assert_eq!(reader.read(5).unwrap(), vec![0.4, 0.5, 0.6, 0.7, 0.8]);
}

#[test]
fn segment_seeks() {
    let segment = segment();
    let mut reader = segment.create_sample_reader().unwrap();
    reader.set_position(2);
    assert_eq!(reader.read(3).unwrap(), vec![0.3, 0.4, 0.5]);

    reader.set_position(1);
    assert_eq!(reader.read(3).unwrap(), vec![0.2, 0.3, 0.4]);

    assert_eq!(reader.read(3).unwrap(), vec![0.5, 0.6, 0.7]);
}

#[test]
fn segment_seeks_up_to_the_end() {
    let segment = segment();
    let mut reader = segment.create_sample_reader().unwrap();
    reader.set_position(8);
    assert!(reader.read(0).unwrap().is_empty());
}

#[test]
fn segment_equals_inner_range() {
    // Reading a segment's full length equals reading the source from
    // `start` for `end - start` frames.
    let samples: Vec<f32> = (0..20).map(|i| i as f32 / 20.0).collect();
    let inner_clip = MemoryAudioClip::new(&samples, 8000);
    let segment = Segment::new(inner_clip.clone(), 5, 17);

    let mut segment_reader = segment.create_sample_reader().unwrap();
    let from_segment = segment_reader.read(12).unwrap();

    let mut inner_reader = inner_clip.create_sample_reader().unwrap();
    inner_reader.set_position(5);
    let from_inner = inner_reader.read(12).unwrap();

    assert_eq!(from_segment, from_inner);
}

#[test]
fn segment_composes_with_segment() {
    let samples: Vec<f32> = (0..20).map(|i| i as f32).collect();
    let inner_clip = MemoryAudioClip::new(&samples, 8000);
    let outer = Segment::new(Segment::new(inner_clip, 4, 16), 2, 8);
    assert_eq!(outer.len(), 6);
    let mut reader = outer.create_sample_reader().unwrap();
    assert_eq!(reader.read(6).unwrap(), vec![6.0, 7.0, 8.0, 9.0, 10.0, 11.0]);
}

#[test]
fn can_be_created_via_fluent_syntax() {
    let clip = MemoryAudioClip::new(&[0.0f32, 0.1, 0.2, 0.3, 0.4], 16000);
    let segment = clip.segment(1, 2);
    assert_eq!(segment.len(), 1);

    let clip = MemoryAudioClip::new(&[0.0f32, 0.1, 0.2, 0.3, 0.4], 16000);
    let resampled = clip.resampled(32000);
    assert_eq!(resampled.len(), 10);

    let clip = MemoryAudioClip::new(&vec![0.0f32; 100], 16000);
    let stacked = clip.segment(10, 90).resampled(8000);
    assert_eq!(stacked.len(), 40);
    assert_eq!(stacked.sampling_rate(), 8000);
}

#[test]
fn reports_segment_violations() {
    assert!(check_segment_bounds(1, 9, 11).is_none());
    let message = check_segment_bounds(5, 3, 11).unwrap();
    assert_eq!(message, "Start (5) must not be greater than end (3).");
    let message = check_segment_bounds(1, 12, 11).unwrap();
    assert_eq!(message, "Segment 1..12 exceeds 11-frame audio clip.");
}
