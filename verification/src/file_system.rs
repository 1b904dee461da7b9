//! Filesystem-type registration state, as plain values. The host performs
//! the real registration; this records what was declared.

use vstd::prelude::*;

verus! {

use crate::error::Error;
use crate::types::FileSystemFlags;

/// A declared filesystem type awaiting registration.
#[derive(Clone, Copy, PartialEq, Eq, Debug)]
pub struct Registration {
    /// The declared behaviour flags.
    pub fs_flags: FileSystemFlags,
    /// Whether the type is currently registered with the host.
    pub registered: bool,
}

impl Registration {
    /// Declares a filesystem type with the given flags, not yet
    /// registered. Allocation lives with the caller here, so this cannot
    /// fail; the result stays for signature parity with an allocating
    /// host.
    pub fn new_pinned(fs_flags: FileSystemFlags) -> (r: Result<Registration, Error>)
        ensures
            r == Ok::<Registration, Error>(Registration { fs_flags, registered: false }),
    {
        Ok(Registration { fs_flags, registered: false })
    }
}

} // verus!
