//! Cursor offsets and file lengths between `usize` and the platform.
//!
//! The platform counts bytes in 64 bits, the stream in `usize`. An offset
//! going out always fits. A position coming back is narrowed the way an
//! integer cast narrows it, and a length coming back is refused when it
//! does not fit.

use vstd::prelude::*;
use crate::error::StreamError;

verus! {

/// The number of values a `usize` can take.
pub open spec fn address_space() -> int {
    usize::MAX as int + 1
}

/// The absolute platform offset for a seek to `to`.
pub open spec fn offset_of(to: usize) -> u64 {
    to as u64
}

/// The stream position for a cursor that the platform reports at `raw`:
/// `raw` itself where it fits in a `usize`, and its low bits where it does
/// not.
pub open spec fn position_of(raw: u64) -> int {
    raw as int % address_space()
}

/// Converts the target of a seek into the absolute offset, counted from the
/// start of the file, that is handed to the platform.
pub fn seek_offset(to: usize) -> (offset: u64)
    ensures
        offset == offset_of(to),
        offset as int == to as int,
{
    to as u64
}

/// Converts a cursor position reported by the platform into the stream's
/// position type.
///
/// On a target whose `usize` is narrower than 64 bits a position beyond
/// the address space wraps around, as an integer cast does.
pub fn position_from(raw: u64) -> (position: usize)
    ensures
        position as int == position_of(raw),
        raw <= usize::MAX ==> position as int == raw as int,
{
    let limit: u64 = usize::MAX as u64;
    if raw <= limit {
        proof {
            vstd::arithmetic::div_mod::lemma_small_mod(raw as nat, address_space() as nat);
        }
        raw as usize
    } else {
        let wrapped: u64 = raw % (limit + 1);
        wrapped as usize
    }
}

/// Converts a file length reported by the platform into the stream's
/// length type.
///
/// A length that fits is returned unchanged; one that does not fit is
/// refused with [`StreamError::LengthOutOfRange`].
pub fn length_from(raw: u64) -> (r: Result<usize, StreamError>)
    ensures
        raw <= usize::MAX ==> r == Ok::<usize, StreamError>(raw as usize),
        raw > usize::MAX ==> r == Err::<usize, StreamError>(StreamError::LengthOutOfRange),
{
    match usize::try_from(raw) {
        Ok(len) => Ok(len),
        Err(_) => Err(StreamError::LengthOutOfRange),
    }
}

/// Seeking to `k` and asking where the cursor stands gives back `k`: the
/// offset that a seek to `k` hands to the platform, reported back as the
/// cursor's position, converts to `k` again, wherever `k` lies relative to
/// the end of the file.
pub proof fn lemma_tell_after_seek(k: usize)
    ensures
        position_of(offset_of(k)) == k as int,
{
    vstd::arithmetic::div_mod::lemma_small_mod(k as nat, address_space() as nat);
}

} // verus!
