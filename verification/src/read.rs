//! The bounds check that guards every read.
//!
//! A read is transferred only if the whole request lies inside the file.
//! A request that would run past the end is refused outright instead of
//! being cut short, so a caller decoding structured data never mistakes a
//! partial buffer for a complete one.

use vstd::prelude::*;
use crate::error::StreamError;

verus! {

/// Whether a read of `requested` bytes starting at `position` runs past the
/// end of a file that is `len` bytes long.
pub open spec fn reads_past_end(position: int, requested: int, len: int) -> bool {
    position + requested > len
}

/// Decides whether a read of `requested` bytes at cursor `position` may go
/// ahead on a file of `len` bytes.
///
/// The request is refused with [`StreamError::ReadPastEof`] exactly when
/// `position + requested` exceeds `len`; the sum is taken over the
/// integers, so a request too large to add in `usize` is refused as well.
pub fn check_read(position: usize, requested: usize, len: u64) -> (r: Result<(), StreamError>)
    ensures
        r is Err <==> reads_past_end(position as int, requested as int, len as int),
        r matches Err(e) ==> e == StreamError::ReadPastEof,
{
    let start: u64 = position as u64;
    if start > len {
        return Err(StreamError::ReadPastEof);
    }
    let available: u64 = len - start;
    if requested as u64 > available {
        Err(StreamError::ReadPastEof)
    } else {
        Ok(())
    }
}

/// At the very end of a file a read of nothing is accepted and a read of a
/// single byte is refused, whatever the file's length.
pub proof fn lemma_read_at_end(len: nat)
    ensures
        !reads_past_end(len as int, 0, len as int),
        reads_past_end(len as int, 1, len as int),
{
}

} // verus!
