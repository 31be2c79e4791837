//! The byte-stream collaborator the container parsers read from: sequential
//! reads of little-endian integers, absolute seeks, and a position query over
//! an in-memory byte buffer. Reading past the end of the data reports the
//! corrupt-file error for a truncated stream; seeking clamps to the end of
//! the data, after which any non-empty read fails the same way.

use vstd::prelude::*;

use crate::audio_error::{unexpected_eof_error, is_eof_error, AudioError};

verus! {

/// The value of the two little-endian bytes of `d` starting at `i`.
pub open spec fn u16_le_at(d: Seq<u8>, i: int) -> int {
    d[i] + 0x100 * d[i + 1]
}

/// The value of the four little-endian bytes of `d` starting at `i`.
pub open spec fn u32_le_at(d: Seq<u8>, i: int) -> int {
    u16_le_at(d, i) + 0x10000 * u16_le_at(d, i + 2)
}

/// The value of the eight little-endian bytes of `d` starting at `i`.
pub open spec fn u64_le_at(d: Seq<u8>, i: int) -> int {
    u32_le_at(d, i) + 0x1_0000_0000 * u32_le_at(d, i + 4)
}

/// A seekable reader over an in-memory byte buffer.
pub struct ByteReader {
    data: Vec<u8>,
    pos: usize,
}

impl ByteReader {
    /// The bytes this reader reads from.
    pub closed spec fn stream(&self) -> Seq<u8> {
        self.data@
    }

    /// The current read position.
    pub closed spec fn cursor(&self) -> int {
        self.pos as int
    }

    /// The position never lies beyond the end of the data.
    pub closed spec fn wf(&self) -> bool {
        self.pos <= self.data.len()
    }

    /// A well-formed reader's position lies between the start and the end of
    /// its data.
    pub broadcast proof fn lemma_wf_bounds(&self)
        requires
            #[trigger] self.wf(),
        ensures
            0 <= self.cursor() <= self.stream().len(),
    {
    }

    /// A reader over `data`, positioned at its start.
    pub fn new(data: Vec<u8>) -> (r: Self)
        ensures
            r.wf(),
            r.stream() == data@,
            r.cursor() == 0,
    {
        ByteReader { data, pos: 0 }
    }

    /// An independent reader over the same bytes, positioned at the start.
    pub fn duplicate(&self) -> (r: Self)
        ensures
            r.wf(),
            r.stream() == self.stream(),
            r.cursor() == 0,
    {
        ByteReader { data: vstd::slice::slice_to_vec(self.data.as_slice()), pos: 0 }
    }

    /// The total number of bytes of the stream.
    pub fn stream_len(&self) -> (r: usize)
        ensures
            r == self.stream().len(),
    {
        self.data.len()
    }

    /// The current position, in bytes from the start of the stream.
    pub fn stream_position(&self) -> (r: u64)
        requires
            self.wf(),
        ensures
            r == self.cursor(),
    {
        self.pos as u64
    }

    /// Moves the position to `target`, clamped to the end of the data.
    pub fn seek(&mut self, target: u64)
        requires
            old(self).wf(),
        ensures
            final(self).wf(),
            final(self).stream() == old(self).stream(),
            final(self).cursor() == if target <= old(self).stream().len() {
                target as int
            } else {
                old(self).stream().len() as int
            },
    {
        let len = self.data.len();
        if target >= len as u64 {
            self.pos = len;
        } else {
            self.pos = target as usize;
        }
    }

    /// Reads one byte and advances the position past it.
    pub fn read_u8(&mut self) -> (r: Result<u8, AudioError>)
        requires
            old(self).wf(),
        ensures
            final(self).wf(),
            final(self).stream() == old(self).stream(),
            (r is Ok) == (old(self).cursor() + 1 <= old(self).stream().len()),
            (r matches Ok(v) ==> v == old(self).stream()[old(self).cursor()]
                && final(self).cursor() == old(self).cursor() + 1),
            (r matches Err(e) ==> is_eof_error(&e) && *final(self) == *old(self)),
    {
        if self.data.len() - self.pos >= 1 {
            let b = self.data[self.pos];
            self.pos = self.pos + 1;
            Ok(b)
        } else {
            Err(unexpected_eof_error())
        }
    }

    /// Reads two little-endian bytes as an unsigned integer.
    pub fn read_u16_le(&mut self) -> (r: Result<u16, AudioError>)
        requires
            old(self).wf(),
        ensures
            final(self).wf(),
            final(self).stream() == old(self).stream(),
            (r is Ok) == (old(self).cursor() + 2 <= old(self).stream().len()),
            (r matches Ok(v) ==> v == u16_le_at(old(self).stream(), old(self).cursor())
                && final(self).cursor() == old(self).cursor() + 2),
            (r matches Err(e) ==> is_eof_error(&e) && *final(self) == *old(self)),
    {
        if self.data.len() - self.pos >= 2 {
            let b0 = self.data[self.pos];
            let b1 = self.data[self.pos + 1];
            self.pos = self.pos + 2;
            Ok(b0 as u16 + 0x100 * (b1 as u16))
        } else {
            Err(unexpected_eof_error())
        }
    }

    /// Reads four little-endian bytes as an unsigned integer.
    pub fn read_u32_le(&mut self) -> (r: Result<u32, AudioError>)
        requires
            old(self).wf(),
        ensures
            final(self).wf(),
            final(self).stream() == old(self).stream(),
            (r is Ok) == (old(self).cursor() + 4 <= old(self).stream().len()),
            (r matches Ok(v) ==> v == u32_le_at(old(self).stream(), old(self).cursor())
                && final(self).cursor() == old(self).cursor() + 4),
            (r matches Err(e) ==> is_eof_error(&e) && *final(self) == *old(self)),
    {
        if self.data.len() - self.pos >= 4 {
            let b0 = self.data[self.pos];
            let b1 = self.data[self.pos + 1];
            let b2 = self.data[self.pos + 2];
            let b3 = self.data[self.pos + 3];
            self.pos = self.pos + 4;
            Ok(
                b0 as u32 + 0x100 * (b1 as u32) + 0x10000 * (b2 as u32) + 0x100_0000 * (
                b3 as u32),
            )
        } else {
            Err(unexpected_eof_error())
        }
    }

    /// Reads `count` bytes and advances the position past them.
    pub fn read_bytes(&mut self, count: usize) -> (r: Result<Vec<u8>, AudioError>)
        requires
            old(self).wf(),
        ensures
            final(self).wf(),
            final(self).stream() == old(self).stream(),
            (r is Ok) == (old(self).cursor() + count <= old(self).stream().len()),
            (r matches Ok(v) ==> v@ == old(self).stream().subrange(
                old(self).cursor(),
                old(self).cursor() + count,
            ) && final(self).cursor() == old(self).cursor() + count),
            (r matches Err(e) ==> is_eof_error(&e) && *final(self) == *old(self)),
    {
        if self.data.len() - self.pos >= count {
            let mut out: Vec<u8> = Vec::new();
            let mut i: usize = 0;
            while i < count
                invariant
                    self.pos + count <= self.data.len(),
                    i <= count,
                    out@ == self.data@.subrange(self.pos as int, self.pos + i),
                decreases count - i,
            {
                out.push(self.data[self.pos + i]);
                i = i + 1;
                proof {
                    assert(out@ =~= self.data@.subrange(self.pos as int, self.pos + i));
                }
            }
            self.pos = self.pos + count;
            Ok(out)
        } else {
            Err(unexpected_eof_error())
        }
    }
}

} // verus!
