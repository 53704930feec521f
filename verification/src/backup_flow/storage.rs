//! How backup files are opened.

use vstd::prelude::*;

verus! {

/// What a file is opened for.
#[derive(Clone, Copy, Debug, PartialEq, Eq, Structural)]
pub struct OpenFlags {
    pub read: bool,
    pub write: bool,
    pub create: bool,
}

/// For writing a backup; the file comes into being if need be.
pub fn write_flags() -> (flags: OpenFlags)
    ensures
        flags == (OpenFlags { read: false, write: true, create: true }),
{
    OpenFlags { read: false, write: true, create: true }
}

/// For reading a backup; the file must be there and stays as it is.
pub fn read_flags() -> (flags: OpenFlags)
    ensures
        flags == (OpenFlags { read: true, write: false, create: false }),
{
    OpenFlags { read: true, write: false, create: false }
}

} // verus!
