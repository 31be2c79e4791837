use rhubarb_audio::wave_audio_clip::WaveAudioClip;

fn chunk(id: &[u8; 4], body: &[u8]) -> Vec<u8> {
    let mut v = Vec::new();
    v.extend_from_slice(id);
    v.extend_from_slice(&(body.len() as u32).to_le_bytes());
    v.extend_from_slice(body);
    if body.len() % 2 == 1 {
        v.push(0);
    }
    v
}

fn fmt_body(codec: u16, channels: u16, rate: u32, bytes_per_frame: u16, bits: u16) -> Vec<u8> {
    let mut v = Vec::new();
    v.extend_from_slice(&codec.to_le_bytes());
    v.extend_from_slice(&channels.to_le_bytes());
    v.extend_from_slice(&rate.to_le_bytes());
    v.extend_from_slice(&(rate * bytes_per_frame as u32).to_le_bytes());
    v.extend_from_slice(&bytes_per_frame.to_le_bytes());
    v.extend_from_slice(&bits.to_le_bytes());
    v
}

fn wav_file(chunks: &[Vec<u8>]) -> Vec<u8> {
    let mut body = Vec::new();
    for c in chunks {
        body.extend_from_slice(c);
    }
    let mut v = Vec::new();
    v.extend_from_slice(b"RIFF");
    v.extend_from_slice(&((4 + body.len()) as u32).to_le_bytes());
    v.extend_from_slice(b"WAVE");
    v.extend_from_slice(&body);
    v
}

fn mono_clip(codec: u16, bits: u16, bytes_per_sample: u16, data: &[u8]) -> WaveAudioClip {
    let bytes = wav_file(&[
        chunk(b"fmt ", &fmt_body(codec, 1, 8000, bytes_per_sample, bits)),
        chunk(b"data", data),
    ]);
    WaveAudioClip::new(bytes).unwrap()
}

#[test]
fn decodes_u8_samples() {
    // 0x00, 0x80 and 0xFF: the negative extreme, zero, and the positive
    // extreme; the decode rule is (raw - 128) / 128.
    let clip = mono_clip(1, 8, 1, &[0x00, 0x80, 0xFF, 0x81, 0x7F]);
    let mut reader = clip.create_sample_reader().unwrap();
    let raw = reader.read(5).unwrap();
    assert_eq!(raw, vec![-128, 0, 127, 1, -1]);
    assert_eq!(raw[0] as f32 / 128.0, -1.0);
    assert_eq!(raw[1] as f32 / 128.0, 0.0);
    assert_eq!(raw[3] as f32 / 128.0, 1.0 / 128.0);
}

#[test]
fn decodes_i16_samples() {
    let samples: Vec<i16> = vec![0, 1, -1, i16::MAX, i16::MIN];
    let mut data = Vec::new();
    for s in &samples {
        data.extend_from_slice(&s.to_le_bytes());
    }
    let clip = mono_clip(1, 16, 2, &data);
    let mut reader = clip.create_sample_reader().unwrap();
    let raw = reader.read(5).unwrap();
    assert_eq!(raw, vec![0, 1, -1, 32767, -32768]);
    assert_eq!(raw[4] as f32 / 32768.0, -1.0);
    assert_eq!(raw[1] as f32 / 32768.0, 1.0 / 32768.0);
}

#[test]
fn decodes_i24_samples() {
    // Little-endian three-byte two's complement: 0, 1, -1, max, min.
    let data: Vec<u8> = vec![
        0x00, 0x00, 0x00, //
        0x01, 0x00, 0x00, //
        0xFF, 0xFF, 0xFF, //
        0xFF, 0xFF, 0x7F, //
        0x00, 0x00, 0x80,
    ];
    let clip = mono_clip(1, 24, 3, &data);
    let mut reader = clip.create_sample_reader().unwrap();
    let raw = reader.read(5).unwrap();
    assert_eq!(raw, vec![0, 1, -1, 8388607, -8388608]);
    assert_eq!(raw[4] as f32 / 8388608.0, -1.0);
}

#[test]
fn decodes_i32_samples() {
    let samples: Vec<i32> = vec![0, 1, -1, i32::MAX, i32::MIN];
    let mut data = Vec::new();
    for s in &samples {
        data.extend_from_slice(&s.to_le_bytes());
    }
    let clip = mono_clip(1, 32, 4, &data);
    let mut reader = clip.create_sample_reader().unwrap();
    let raw = reader.read(5).unwrap();
    assert_eq!(raw, vec![0, 1, -1, 2147483647, -2147483648]);
    assert_eq!(raw[4] as f64 / 2147483648.0, -1.0);
}

#[test]
fn decodes_f32_samples() {
    let samples: Vec<f32> = vec![0.0, 1.0, -1.0, 0.5, -0.25];
    let mut data = Vec::new();
    for s in &samples {
        data.extend_from_slice(&s.to_le_bytes());
    }
    let clip = mono_clip(3, 32, 4, &data);
    let mut reader = clip.create_sample_reader().unwrap();
    let raw = reader.read(5).unwrap();
    for (i, s) in samples.iter().enumerate() {
        assert_eq!(f32::from_bits(raw[i] as u32), *s);
    }
}

#[test]
fn decodes_f64_samples() {
    let samples: Vec<f64> = vec![0.0, 1.0, -1.0, 0.5, -0.25];
    let mut data = Vec::new();
    for s in &samples {
        data.extend_from_slice(&s.to_le_bytes());
    }
    let clip = mono_clip(3, 64, 8, &data);
    let mut reader = clip.create_sample_reader().unwrap();
    let raw = reader.read(5).unwrap();
    for (i, s) in samples.iter().enumerate() {
        assert_eq!(f64::from_bits(raw[i] as u64) as f32, *s as f32);
    }
}

#[test]
fn downmixes_interleaved_channels() {
    // A two-channel 16-bit clip: read returns the interleaved raw values,
    // and the mono sample is their average after scaling.
    let samples: Vec<i16> = vec![1000, 3000, -2000, 500];
    let mut data = Vec::new();
    for s in &samples {
        data.extend_from_slice(&s.to_le_bytes());
    }
    let bytes = wav_file(&[
        chunk(b"fmt ", &fmt_body(1, 2, 48000, 4, 16)),
        chunk(b"data", &data),
    ]);
    let clip = WaveAudioClip::new(bytes).unwrap();
    assert_eq!(clip.len(), 2);
    assert_eq!(clip.channel_count(), 2);
    let mut reader = clip.create_sample_reader().unwrap();
    let raw = reader.read(2).unwrap();
    assert_eq!(raw, vec![1000, 3000, -2000, 500]);
    let mono0 = (raw[0] as f32 / 32768.0 + raw[1] as f32 / 32768.0) / 2.0;
    let mono1 = (raw[2] as f32 / 32768.0 + raw[3] as f32 / 32768.0) / 2.0;
    assert_eq!(mono0, 2000.0 / 32768.0);
    assert_eq!(mono1, -750.0 / 32768.0);
}

#[test]
fn seeks_and_reads() {
    let data: Vec<u8> = (0u8..100).collect();
    let clip = mono_clip(1, 8, 1, &data);
    let mut reader = clip.create_sample_reader().unwrap();
    reader.set_position(50);
    assert_eq!(reader.position(), 50);
    let raw = reader.read(2).unwrap();
    assert_eq!(raw, vec![50 - 128, 51 - 128]);
    assert_eq!(reader.position(), 52);
}

#[test]
fn sequential_reads_are_consecutive() {
    let data: Vec<u8> = (0u8..100).collect();
    let clip = mono_clip(1, 8, 1, &data);
    let mut reader = clip.create_sample_reader().unwrap();
    assert_eq!(reader.read(3).unwrap(), vec![-128, -127, -126]);
    assert_eq!(reader.read(2).unwrap(), vec![-125, -124]);
    assert_eq!(reader.position(), 5);
}

#[test]
fn collapses_redundant_seeks() {
    // Several seeks before a read have the same observable effect as only
    // the last one.
    let data: Vec<u8> = (0u8..100).collect();
    let clip = mono_clip(1, 8, 1, &data);

    let mut hopping = clip.create_sample_reader().unwrap();
    hopping.set_position(90);
    hopping.set_position(3);
    hopping.set_position(20);
    let from_hopping = hopping.read(4).unwrap();

    let mut direct = clip.create_sample_reader().unwrap();
    direct.set_position(20);
    let from_direct = direct.read(4).unwrap();

    assert_eq!(from_hopping, from_direct);
    assert_eq!(hopping.position(), direct.position());
}

#[test]
fn zero_length_read_at_end_succeeds() {
    let data: Vec<u8> = (0u8..10).collect();
    let clip = mono_clip(1, 8, 1, &data);
    let mut reader = clip.create_sample_reader().unwrap();
    reader.set_position(10);
    let raw = reader.read(0).unwrap();
    assert!(raw.is_empty());
    assert_eq!(reader.position(), 10);
}

#[test]
fn fails_on_truncated_data_chunk() {
    // The data chunk declares more bytes than the file holds.
    let mut bytes = wav_file(&[chunk(b"fmt ", &fmt_body(1, 1, 8000, 1, 8))]);
    bytes.extend_from_slice(b"data");
    bytes.extend_from_slice(&8u32.to_le_bytes());
    bytes.extend_from_slice(&[1, 2, 3]); // only 3 of the declared 8 bytes
    let clip = WaveAudioClip::new(bytes).unwrap();
    assert_eq!(clip.len(), 8);
    let mut reader = clip.create_sample_reader().unwrap();
    let error = reader.read(8).unwrap_err();
    assert_eq!(
        error,
        rhubarb_audio::audio_error::AudioError::CorruptFile(
            "Unexpected end of file.".to_owned()
        )
    );
    // The first three frames are still readable.
    let raw = reader.read(3).unwrap();
    assert_eq!(raw, vec![1 - 128, 2 - 128, 3 - 128]);
}

#[test]
fn reproduces_a_long_stereo_signal() {
    // A 10-second, 48 kHz two-channel 16-bit clip of a known signal,
    // downmixed to mono in full.
    let frame_count: usize = 480_000;
    let mut data = Vec::with_capacity(frame_count * 4);
    for i in 0..frame_count {
        let left = (i % 2000) as i16;
        let right = -((i % 500) as i16);
        data.extend_from_slice(&left.to_le_bytes());
        data.extend_from_slice(&right.to_le_bytes());
    }
    let bytes = wav_file(&[
        chunk(b"fmt ", &fmt_body(1, 2, 48000, 4, 16)),
        chunk(b"data", &data),
    ]);
    let clip = WaveAudioClip::new(bytes).unwrap();
    assert_eq!(clip.len(), frame_count as u64);
    assert_eq!(clip.sampling_rate(), 48000);
    assert_eq!(clip.duration(), 10_000_000_000);

    let mut reader = clip.create_sample_reader().unwrap();
    let raw = reader.read(frame_count).unwrap();
    assert_eq!(raw.len(), frame_count * 2);
    for i in 0..frame_count {
        let left = raw[2 * i] as f32 / 32768.0;
        let right = raw[2 * i + 1] as f32 / 32768.0;
        let mono = (left + right) / 2.0;
        let expected = ((i % 2000) as f32 - (i % 500) as f32) / 2.0 / 32768.0;
        assert_eq!(mono, expected);
    }
    assert_eq!(reader.position(), frame_count as u64);
}
