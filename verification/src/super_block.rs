//! The superblock state this core reads and writes during a mount, as
//! plain values.
//!
//! The host VFS owns the real superblock; a mount hands this core the
//! fields below, and the derived geometry is attached to it once the
//! computation has fully succeeded.

use vstd::prelude::*;

verus! {

use crate::super_ops::BS2FatSuperOps;
use crate::error::Error;

/// Superblock flag: do not update directory access times.
pub const SB_NODIRATIME: u64 = 0x800;

/// Superblock flag: do not update access times at all.
pub const SB_NOATIME: u64 = 0x400;

/// Magic number identifying an MS-DOS filesystem superblock.
pub const MSDOS_SUPER_MAGIC: u64 = 0x4d44;

/// The slice of a superblock that the FAT mount path touches.
#[derive(Clone, Copy, PartialEq, Eq, Debug)]
pub struct SuperBlock {
    pub s_blocksize: u64,
    pub s_flags: u64,
    pub s_magic: u64,
    pub s_time_gran: u32,
    pub s_maxbytes: i64,
    pub s_time_min: i64,
    pub s_time_max: i64,
    /// The per-volume FAT state, once a mount has attached it.
    pub s_fs_info: Option<BS2FatSuperOps>,
}

impl SuperBlock {
    /// Attaches the per-volume FAT state to the superblock. Storage for it
    /// lives with the caller here, so this cannot fail; the result stays
    /// for signature parity with an allocating host.
    pub fn set_super_operations(&mut self, ops: BS2FatSuperOps) -> (r: Result<(), Error>)
        ensures
            r is Ok,
            final(self).s_fs_info == Some(ops),
            final(self).s_blocksize == old(self).s_blocksize,
            final(self).s_flags == old(self).s_flags,
            final(self).s_magic == old(self).s_magic,
            final(self).s_time_gran == old(self).s_time_gran,
            final(self).s_maxbytes == old(self).s_maxbytes,
            final(self).s_time_min == old(self).s_time_min,
            final(self).s_time_max == old(self).s_time_max,
    {
        self.s_fs_info = Some(ops);
        Ok(())
    }
}

/// The FAT state attached to a mounted superblock.
pub fn msdos_sb(sb: &SuperBlock) -> (r: &BS2FatSuperOps)
    requires
        sb.s_fs_info is Some,
    ensures
        Some(*r) == sb.s_fs_info,
{
    match &sb.s_fs_info {
        Some(ops) => ops,
        None => vstd::pervasive::unreached(),
    }
}

} // verus!
