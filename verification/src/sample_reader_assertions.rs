//! The programming-contract checks that guard seeking and reading. Seeking
//! past a clip's length, or reading past its end, is a caller bug, not a
//! recoverable error: these checks hand back the exact message with which
//! the operation must abort, so an unverified caller can test the condition
//! first and fail as required.

use vstd::prelude::*;
use vstd::string::StringExecFns;

use crate::text::{decimal_string, decimal_text};

verus! {

/// The abort message for a seek to `position` in a `len`-frame clip.
pub open spec fn seek_violation_text(position: u64, len: u64) -> Seq<char> {
    "Attempting to seek to position "@ + decimal_text(position as nat) + " of "@ + decimal_text(
        len as nat,
    ) + "-frame audio clip."@
}

/// The abort message for a read reaching up to `end` in a `len`-frame clip.
pub open spec fn read_violation_text(end: u64, len: u64) -> Seq<char> {
    "Attempting to read up to position "@ + decimal_text(end as nat) + " of "@ + decimal_text(
        len as nat,
    ) + "-frame audio clip."@
}

/// Checks a seek target against a clip's length: `None` exactly when the
/// seek is legal (positions up to and including the length are), else the
/// message, citing both the attempted position and the length, with which
/// the seek must abort.
pub fn check_seek_position(position: u64, len: u64) -> (r: Option<String>)
    ensures
        (r is None) == (position <= len),
        (r matches Some(m) ==> m@ == seek_violation_text(position, len)),
{
    if position <= len {
        None
    } else {
        let mut msg = "Attempting to seek to position ".to_owned();
        msg.append(decimal_string(position).as_str());
        msg.append(" of ");
        msg.append(decimal_string(len).as_str());
        msg.append("-frame audio clip.");
        proof {
            assert(msg@ =~= seek_violation_text(position, len));
        }
        Some(msg)
    }
}

/// Checks a read of `buffer_len` frames from `position` against a clip's
/// length: `None` exactly when the read fits before the end, else the
/// message, citing the position just past the requested range and the
/// length, with which the read must abort.
pub fn check_read_size(position: u64, buffer_len: u64, len: u64) -> (r: Option<String>)
    requires
        position + buffer_len <= u64::MAX,
    ensures
        (r is None) == (position + buffer_len <= len),
        (r matches Some(m) ==> m@ == read_violation_text((position + buffer_len) as u64, len)),
{
    let end = position + buffer_len;
    if end <= len {
        None
    } else {
        let mut msg = "Attempting to read up to position ".to_owned();
        msg.append(decimal_string(end).as_str());
        msg.append(" of ");
        msg.append(decimal_string(len).as_str());
        msg.append("-frame audio clip.");
        proof {
            assert(msg@ =~= read_violation_text(end, len));
        }
        Some(msg)
    }
}

} // verus!
