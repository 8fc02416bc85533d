//! Errors that the stream raises by its own decision.

use vstd::prelude::*;

verus! {

/// A failure decided by the stream itself, as opposed to one reported by the
/// platform.
#[derive(Clone, Copy, Debug, PartialEq, Eq)]
pub enum StreamError {
    /// A read asked for bytes beyond the current end of the file.
    ReadPastEof,
    /// The file's length cannot be represented as a `usize`.
    LengthOutOfRange,
}

} // verus!
