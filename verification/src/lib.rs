//! Verified core of a bounds-checked file stream.
//!
//! A file stream opens a file in one of three modes and then seeks, reads,
//! writes and reports its length. Everything such a stream decides for
//! itself lives here, free of I/O and proved against its contract: which
//! platform options an open mode stands for, how cursor offsets and file
//! lengths cross between the platform's 64-bit values and `usize`, and
//! whether a read fits inside the file. The caller performs the platform
//! operations and hands their plain results to these functions.

pub mod cursor;
pub mod error;
pub mod open;
pub mod read;

pub use cursor::{length_from, position_from, seek_offset};
pub use error::StreamError;
pub use open::{OpenFlags, OpenType};
pub use read::check_read;
