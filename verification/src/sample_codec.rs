//! Extraction of raw sample values from little-endian sample bytes. A raw
//! value is the integer a decoder divides by the encoding's scale to obtain
//! the sample in [-1, 1]: for the unsigned 8-bit encoding the byte re-centred
//! around zero, for the signed encodings the sign-extended two's-complement
//! value, and for the floating-point encodings the IEEE 754 bit pattern
//! (reinterpreted as a two's-complement integer for the 64-bit case).

use vstd::prelude::*;

use crate::byte_reader::{u16_le_at, u32_le_at, u64_le_at};
use crate::wave_file_info::{bytes_per_sample_of, SampleFormat};

verus! {

/// The raw value of the sample stored in the `bytes_per_sample_of(format)`
/// bytes of `b` starting at `i`.
pub open spec fn raw_of(format: SampleFormat, b: Seq<u8>, i: int) -> int {
    match format {
        SampleFormat::U8 => b[i] - 0x80,
        SampleFormat::I16 => {
            let v = u16_le_at(b, i);
            if v >= 0x8000 {
                v - 0x10000
            } else {
                v
            }
        },
        SampleFormat::I24 => {
            let v = b[i] + 0x100 * b[i + 1] + 0x10000 * b[i + 2];
            if v >= 0x80_0000 {
                v - 0x100_0000
            } else {
                v
            }
        },
        SampleFormat::I32 => {
            let v = u32_le_at(b, i);
            if v >= 0x8000_0000 {
                v - 0x1_0000_0000
            } else {
                v
            }
        },
        SampleFormat::F32 => u32_le_at(b, i),
        SampleFormat::F64 => {
            let v = u64_le_at(b, i);
            if v >= 0x8000_0000_0000_0000 {
                v - 0x1_0000_0000_0000_0000
            } else {
                v
            }
        },
    }
}

/// Every raw sample value fits a 64-bit signed integer.
pub proof fn lemma_raw_of_range(format: SampleFormat, b: Seq<u8>, i: int)
    requires
        0 <= i,
        i + bytes_per_sample_of(format) <= b.len(),
    ensures
        i64::MIN <= raw_of(format, b, i) <= i64::MAX,
{
}

/// The number of bytes one sample of `format` occupies.
pub fn bytes_per_sample(format: SampleFormat) -> (r: u32)
    ensures
        r == bytes_per_sample_of(format),
{
    match format {
        SampleFormat::U8 => 1,
        SampleFormat::I16 => 2,
        SampleFormat::I24 => 3,
        SampleFormat::I32 => 4,
        SampleFormat::F32 => 4,
        SampleFormat::F64 => 8,
    }
}

/// Decodes the raw value of the sample stored at `offset` in `bytes`.
pub fn decode_raw_sample(format: SampleFormat, bytes: &Vec<u8>, offset: usize) -> (r: i64)
    requires
        offset + bytes_per_sample_of(format) <= bytes@.len(),
    ensures
        r == raw_of(format, bytes@, offset as int),
{
    // Establishes that the buffer's length fits the machine word, which the
    // offset arithmetic below relies on.
    let _byte_count: usize = bytes.len();
    match format {
        SampleFormat::U8 => bytes[offset] as i64 - 0x80,
        SampleFormat::I16 => {
            let v: u32 = bytes[offset] as u32 + 0x100 * (bytes[offset + 1] as u32);
            if v >= 0x8000 {
                v as i64 - 0x10000
            } else {
                v as i64
            }
        },
        SampleFormat::I24 => {
            let v: u32 = bytes[offset] as u32 + 0x100 * (bytes[offset + 1] as u32) + 0x10000 * (
            bytes[offset + 2] as u32);
            if v >= 0x80_0000 {
                v as i64 - 0x100_0000
            } else {
                v as i64
            }
        },
        SampleFormat::I32 => {
            let v: u64 = bytes[offset] as u64 + 0x100 * (bytes[offset + 1] as u64) + 0x10000 * (
            bytes[offset + 2] as u64) + 0x100_0000 * (bytes[offset + 3] as u64);
            if v >= 0x8000_0000 {
                v as i64 - 0x1_0000_0000
            } else {
                v as i64
            }
        },
        SampleFormat::F32 => {
            let v: u64 = bytes[offset] as u64 + 0x100 * (bytes[offset + 1] as u64) + 0x10000 * (
            bytes[offset + 2] as u64) + 0x100_0000 * (bytes[offset + 3] as u64);
            v as i64
        },
        SampleFormat::F64 => {
            let v: u64 = bytes[offset] as u64 + 0x100 * (bytes[offset + 1] as u64) + 0x10000 * (
            bytes[offset + 2] as u64) + 0x100_0000 * (bytes[offset + 3] as u64) + 0x1_0000_0000 * (
            bytes[offset + 4] as u64) + 0x100_0000_0000 * (bytes[offset + 5] as u64)
                + 0x1_0000_0000_0000 * (bytes[offset + 6] as u64) + 0x100_0000_0000_0000 * (
            bytes[offset + 7] as u64);
            if v >= 0x8000_0000_0000_0000 {
                // The two's-complement reinterpretation, computed without a
                // lossy cast: v - 2^64.
                -((u64::MAX - v) as i64) - 1
            } else {
                v as i64
            }
        },
    }
}

} // verus!
