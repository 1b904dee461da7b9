//! File-operation decisions for the FAT core. The host performs the
//! actual cluster allocation and writeback; this module decides, from
//! plain values, what a space-allocating call must do.

use vstd::prelude::*;

verus! {

use crate::error::Error;
use crate::inode::Inode;
use crate::super_ops::BS2FatSuperOps;

/// The file operations of the FAT filesystem; the host's dispatch table
/// points back here.
pub struct BS2FatFileOps;

/// What an allocation request requires of the host.
#[derive(Clone, Copy, PartialEq, Eq, Structural, Debug)]
pub enum AllocPlan {
    /// The file already covers the requested range.
    NoChange,
    /// Allocate this many whole clusters, without growing the visible size.
    AddClusters(u64),
    /// Grow the file to this size by an expanding truncate.
    ExpandTo(i64),
}

/// Bytes a file occupies on disk: its 512-byte block count.
pub open spec fn spec_size_on_disk(inode: Inode) -> int {
    inode.i_blocks * 512
}

/// Whole clusters needed to cover `bytes`, rounded up.
pub open spec fn spec_clusters_for(bytes: int, cluster_size: int) -> int {
    (bytes + cluster_size - 1) / cluster_size
}

impl BS2FatFileOps {
    /// Decides what allocating `[offset, offset + length)` must do. Any
    /// allocation mode beyond keep-size is unsupported, as is any file
    /// that is not a regular file. With keep-size, enough whole clusters
    /// are added to cover the range on disk; without it, the request is
    /// an expanding truncate to the end offset, if the file does not
    /// already reach it.
    pub fn allocate_file(inode: &Inode, ops: &BS2FatSuperOps, keep_size: bool,
        has_other_mode_flags: bool, offset: i64, length: i64) -> (r: Result<AllocPlan, Error>)
        requires
            0 <= offset,
            0 <= length,
            offset + length <= i64::MAX,
            inode.i_blocks <= 0x0020_0000_0000_0000,
            ops.cluster_size >= 1,
        ensures
            (r is Err) <==> (has_other_mode_flags || !inode.i_mode.spec_is_regular_file()),
            r matches Err(e) ==> e.code() == -95,
            r matches Ok(p) ==> ({
                let end = offset + length;
                if keep_size {
                    if end <= spec_size_on_disk(*inode) {
                        p == AllocPlan::NoChange
                    } else {
                        p == AllocPlan::AddClusters(spec_clusters_for(end - spec_size_on_disk(
                            *inode), ops.cluster_size as int) as u64)
                    }
                } else {
                    if end <= inode.i_size {
                        p == AllocPlan::NoChange
                    } else {
                        p == AllocPlan::ExpandTo((offset + length) as i64)
                    }
                }
            }),
    {
        if has_other_mode_flags {
            // no support for hole punching or other allocation modes
            return Err(Error::eopnotsupp());
        }
        if !inode.i_mode.is_regular_file() {
            return Err(Error::eopnotsupp());
        }

        let end_offset: i64 = offset + length;
        if keep_size {
            let size_on_disk: u64 = inode.i_blocks * 512;
            if end_offset as u64 <= size_on_disk {
                return Ok(AllocPlan::NoChange);
            }
            let bytes_for_file: u64 = end_offset as u64 - size_on_disk;
            let num_clusters: u64 = (bytes_for_file + ops.cluster_size as u64 - 1)
                / ops.cluster_size as u64;
            Ok(AllocPlan::AddClusters(num_clusters))
        } else {
            if end_offset <= inode.i_size {
                return Ok(AllocPlan::NoChange);
            }
            Ok(AllocPlan::ExpandTo(end_offset))
        }
    }
}

} // verus!
