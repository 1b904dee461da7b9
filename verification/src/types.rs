//! Plain value types shared with the host side: file mode bits and
//! filesystem-type flags.

use vstd::prelude::*;

verus! {

/// Mask selecting the file-type bits of a mode value.
pub const S_IFMT: u16 = 0o170000;

/// The file-type bits of a regular file.
pub const S_IFREG: u16 = 0o100000;

/// Permissions and file type, as the packed mode integer.
#[derive(Clone, Copy, PartialEq, Eq, Structural, Debug)]
pub struct Mode(u16);

impl Mode {
    /// The packed mode value.
    pub closed spec fn value(self) -> u16 {
        self.0
    }

    /// Whether the mode describes a regular file.
    pub open spec fn spec_is_regular_file(self) -> bool {
        self.value() & S_IFMT == S_IFREG
    }

    /// Creates a [`Mode`] from an integer.
    pub fn from_int(m: u16) -> (r: Mode)
        ensures
            r.value() == m,
    {
        Mode(m)
    }

    /// Returns the mode as an integer.
    pub fn as_int(&self) -> (r: u16)
        ensures
            r == self.value(),
    {
        self.0
    }

    /// Whether the mode describes a regular file.
    pub fn is_regular_file(&self) -> (r: bool)
        ensures
            r == self.spec_is_regular_file(),
    {
        self.0 & S_IFMT == S_IFREG
    }
}

/// Behaviour flags of a registered filesystem type.
#[derive(Clone, Copy, PartialEq, Eq, Structural, Debug)]
pub struct FileSystemFlags(i32);

/// The filesystem needs an actual underlying block device.
pub const FS_REQUIRES_DEV: i32 = 1;

/// The filesystem handles VFS id mappings.
pub const FS_ALLOW_IDMAP: i32 = 32;

impl FileSystemFlags {
    /// The packed flag bits.
    pub closed spec fn value(self) -> i32 {
        self.0
    }

    pub fn from_int(val: i32) -> (r: FileSystemFlags)
        ensures
            r.value() == val,
    {
        FileSystemFlags(val)
    }

    pub fn into_int(self) -> (r: i32)
        ensures
            r == self.value(),
    {
        self.0
    }

    /// Whether no flag is set.
    pub fn is_empty(&self) -> (r: bool)
        ensures
            r == (self.value() == 0),
    {
        self.0 == 0
    }

    /// Whether any of `other`'s bits is set here too.
    pub fn has(self, other: FileSystemFlags) -> (r: bool)
        ensures
            r == (self.value() & other.value() != 0),
    {
        self.0 & other.0 != 0
    }

    /// This value with `other`'s bits added.
    pub fn with(self, other: FileSystemFlags) -> (r: FileSystemFlags)
        ensures
            r.value() == self.value() | other.value(),
    {
        FileSystemFlags(self.0 | other.0)
    }

    /// This value with `other`'s bits removed.
    pub fn without(self, other: FileSystemFlags) -> (r: FileSystemFlags)
        ensures
            r.value() == self.value() & !other.value(),
    {
        FileSystemFlags(self.0 & !other.0)
    }
}

} // verus!
