//! Open modes and the platform options each of them stands for.

use vstd::prelude::*;

verus! {

/// Indicates how the file stream should open the underlying file.
#[derive(Clone, Copy, Debug, PartialEq, Eq)]
pub enum OpenType {
    /// Open and create the file if it does not exist.
    ///
    /// This will truncate the file if it already exists.
    OpenAndCreate,
    /// Open the file for reading and writing.
    ReadWrite,
    /// Open the file for reading.
    Open,
}

/// The options handed to the platform when a file is opened.
#[derive(Clone, Copy, Debug, PartialEq, Eq)]
pub struct OpenFlags {
    /// Ask for read access.
    pub read: bool,
    /// Ask for write access.
    pub write: bool,
    /// Create the file if it does not exist.
    pub create: bool,
    /// Cut an existing file down to zero length.
    pub truncate: bool,
}

impl OpenFlags {
    /// A set of options that the platform takes as a request to open a
    /// file: some access is asked for, and a file that may be created or
    /// truncated is opened for writing.
    pub open spec fn well_formed(self) -> bool {
        &&& self.read || self.write
        &&& self.create ==> self.write
        &&& self.truncate ==> self.write
    }
}

impl OpenType {
    /// The mode lets the stream read from the file.
    pub open spec fn readable(self) -> bool {
        self is ReadWrite || self is Open
    }

    /// The mode lets the stream write to the file.
    pub open spec fn writable(self) -> bool {
        self is OpenAndCreate || self is ReadWrite
    }

    /// The mode brings the file into being when it is absent and empties
    /// it when it is present. A mode that does not create fails on an
    /// absent file.
    pub open spec fn creates(self) -> bool {
        self is OpenAndCreate
    }

    /// The options that this mode opens a file with.
    ///
    /// `OpenAndCreate` opens write-only, creating or truncating the file.
    /// `ReadWrite` opens an existing file for both directions and `Open`
    /// for reading alone; neither of them creates or truncates anything.
    pub fn flags(self) -> (f: OpenFlags)
        ensures
            f.read == self.readable(),
            f.write == self.writable(),
            f.create == self.creates(),
            f.truncate == self.creates(),
            f.well_formed(),
    {
        match self {
            OpenType::OpenAndCreate => OpenFlags {
                read: false,
                write: true,
                create: true,
                truncate: true,
            },
            OpenType::ReadWrite => OpenFlags {
                read: true,
                write: true,
                create: false,
                truncate: false,
            },
            OpenType::Open => OpenFlags {
                read: true,
                write: false,
                create: false,
                truncate: false,
            },
        }
    }
}

} // verus!
