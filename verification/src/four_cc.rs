//! Four-character codes, the chunk identifiers of RIFF-style containers.

use vstd::prelude::*;

use crate::audio_error::{is_eof_error, AudioError};
use crate::byte_reader::ByteReader;

verus! {

/// A four-character code.
pub type FourCc = [u8; 4];

/// The bytes of `b`, each decoded leniently as the character with its code.
pub open spec fn chars_of_bytes(b: Seq<u8>) -> Seq<char> {
    b.map_values(|x: u8| x as char)
}

/// The string whose characters are the four byte values of `four_cc`,
/// decoded leniently (every byte value is a valid character code).
pub fn four_cc_to_string(four_cc: &FourCc) -> (r: String)
    ensures
        r@ == chars_of_bytes(four_cc@),
{
    let mut r = String::new();
    crate::text::push_char(&mut r, four_cc[0] as char);
    crate::text::push_char(&mut r, four_cc[1] as char);
    crate::text::push_char(&mut r, four_cc[2] as char);
    crate::text::push_char(&mut r, four_cc[3] as char);
    proof {
        assert(r@ =~= chars_of_bytes(four_cc@));
    }
    r
}

/// Reading a four-character code off the front of a byte stream.
pub trait ReadFourCcExt {
    /// The bytes of the underlying stream.
    spec fn source_bytes(&self) -> Seq<u8>;

    /// The current read position within the stream.
    spec fn read_pos(&self) -> int;

    /// The stream's well-formedness.
    spec fn stream_wf(&self) -> bool;

    /// Reads the next four bytes as a four-character code; reports the
    /// corrupt-file error for a truncated stream when fewer than four bytes
    /// are left.
    fn read_four_cc(&mut self) -> (r: Result<FourCc, AudioError>)
        requires
            old(self).stream_wf(),
        ensures
            final(self).stream_wf(),
            final(self).source_bytes() == old(self).source_bytes(),
            (r is Ok) == (old(self).read_pos() + 4 <= old(self).source_bytes().len()),
            (r matches Ok(cc) ==> cc@ == old(self).source_bytes().subrange(
                old(self).read_pos(),
                old(self).read_pos() + 4,
            ) && final(self).read_pos() == old(self).read_pos() + 4),
            (r matches Err(e) ==> is_eof_error(&e) && final(self).read_pos() == old(
                self,
            ).read_pos()),
    ;
}

impl ReadFourCcExt for ByteReader {
    open spec fn source_bytes(&self) -> Seq<u8> {
        self.stream()
    }

    open spec fn read_pos(&self) -> int {
        self.cursor()
    }

    open spec fn stream_wf(&self) -> bool {
        self.wf()
    }

    fn read_four_cc(&mut self) -> (r: Result<FourCc, AudioError>) {
        let ghost pre = *self;
        proof {
            pre.lemma_wf_bounds();
        }
        let bytes = match ByteReader::read_bytes(self, 4) {
            Ok(b) => b,
            Err(e) => { return Err(e) },
        };
        proof {
            assert(bytes@.len() == 4);
        }
        let r: FourCc = [bytes[0], bytes[1], bytes[2], bytes[3]];
        proof {
            assert(r@ =~= self.stream().subrange(pre.cursor(), pre.cursor() + 4));
        }
        Ok(r)
    }
}

} // verus!
