//! Random-access, seekable, mono sample streams over heterogeneous audio
//! backends, with derived views (sub-ranges, sample-rate conversions) that
//! compose without materializing the underlying audio.

pub mod audio_clip;
pub mod audio_error;
pub mod audio_filters;
pub mod byte_reader;
pub mod four_cc;
pub mod memory_audio_clip;
pub mod ogg_audio_clip;
pub mod open_audio_file;
pub mod resampled_audio_clip;
pub mod sample_codec;
pub mod sample_reader_assertions;
pub mod segment;
pub mod text;
pub mod vorbis_file;
pub mod wave_audio_clip;
pub mod wave_file_info;
