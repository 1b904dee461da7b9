//! Directory-entry state shared with the host, as plain values: the inode
//! a dentry points at and its reference count.

use vstd::prelude::*;

verus! {

/// The slice of a dentry this core reasons about.
#[derive(Clone, Copy, PartialEq, Eq, Structural, Debug)]
pub struct Dentry {
    /// Inode the entry points at; `None` for a negative entry.
    pub d_ino: Option<u64>,
    /// Outstanding references.
    pub d_count: u64,
}

impl Dentry {
    /// Takes one more reference on the entry.
    pub fn get(&mut self)
        requires
            old(self).d_count < u64::MAX,
        ensures
            final(self).d_count == old(self).d_count + 1,
            final(self).d_ino == old(self).d_ino,
    {
        self.d_count = self.d_count + 1;
    }
}

} // verus!
