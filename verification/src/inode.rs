//! The inode state this core reads and updates, as plain values.
//!
//! The host driver owns the real in-memory inode; it hands this core the
//! fields the FAT rules speak about (inode number, timestamps, size and
//! mode) and writes any updates back.

use vstd::prelude::*;

verus! {

use crate::error::Error;
use crate::time::Timespec;
use crate::types::Mode;

/// Inode number of the root directory.
pub const FAT_ROOT_INO: u64 = 1;

/// Inode number of the filesystem-info metadata node.
pub const FAT_FSINFO_INO: u64 = 2;

/// Whether to update the access time.
#[derive(Clone, Copy, PartialEq, Eq, Structural, Debug)]
pub enum UpdateATime {
    Yes,
    No,
}

/// Whether to update the change time.
#[derive(Clone, Copy, PartialEq, Eq, Structural, Debug)]
pub enum UpdateCTime {
    Yes,
    No,
}

/// Whether to update the modification time.
#[derive(Clone, Copy, PartialEq, Eq, Structural, Debug)]
pub enum UpdateMTime {
    Yes,
    No,
}

/// Decides whether an eager flush pass must run when inodes are released:
/// without the mount's flush option nothing happens; with it, both inodes
/// must be at hand, and the host then writes each back and flushes the
/// device mapping.
pub fn fat_flush_inodes_plan(flush: bool, first: Option<&Inode>, second: Option<&Inode>) -> (r:
    Result<bool, Error>)
    ensures
        !flush ==> r == Ok::<bool, Error>(false),
        flush && (first is None || second is None) ==> (r matches Err(e) && e.code() == -22),
        flush && first is Some && second is Some ==> r == Ok::<bool, Error>(true),
{
    if !flush {
        return Ok(false);
    }
    if first.is_none() || second.is_none() {
        return Err(Error::einval());
    }
    Ok(true)
}

/// The slice of an inode that the FAT time and allocation rules touch.
#[derive(Clone, Copy, PartialEq, Eq, Structural, Debug)]
pub struct Inode {
    pub i_ino: u64,
    pub i_mode: Mode,
    pub i_size: i64,
    pub i_blocks: u64,
    pub i_atime: Timespec,
    pub i_ctime: Timespec,
    pub i_mtime: Timespec,
}

impl Inode {
    /// Sets the requested subset of the three times to `time`, leaving the
    /// rest of the inode as it was.
    pub fn update_acm_time(&mut self, a: UpdateATime, c: UpdateCTime, m: UpdateMTime,
        time: Timespec)
        ensures
            final(self).i_atime == if a is Yes { time } else { old(self).i_atime },
            final(self).i_ctime == if c is Yes { time } else { old(self).i_ctime },
            final(self).i_mtime == if m is Yes { time } else { old(self).i_mtime },
            final(self).i_ino == old(self).i_ino,
            final(self).i_mode == old(self).i_mode,
            final(self).i_size == old(self).i_size,
            final(self).i_blocks == old(self).i_blocks,
    {
        if matches!(a, UpdateATime::Yes) {
            self.i_atime = time;
        }
        if matches!(c, UpdateCTime::Yes) {
            self.i_ctime = time;
        }
        if matches!(m, UpdateMTime::Yes) {
            self.i_mtime = time;
        }
    }
}

} // verus!
