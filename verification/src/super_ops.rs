//! Superblock geometry engine: derives the per-volume FAT parameters from a
//! validated parameter block and bounds-checks them against the FAT table's
//! own capacity.
//!
//! The derivation runs in two steps with one outside value between them:
//! [`fat_fill_geometry`] computes everything that follows from the
//! parameter block alone, the host then derives the FAT table's cluster
//! capacity from the provisional geometry, and [`fat_finish_geometry`]
//! clamps and checks the cluster count against it.

use vstd::prelude::*;

verus! {

use vstd::arithmetic::power2::pow2;
use vstd::arithmetic::mul::lemma_mul_upper_bound;
use crate::arith::{log2_of_pow2_u64, lemma_pow2_mul, lemma_pow2_div32};
use crate::bootsector::{BiosParamBlock, spec_bpb_fields_valid};
use crate::error::{Error, FillSuperErrorKind};
use crate::super_block::{SuperBlock, SB_NODIRATIME, SB_NOATIME, MSDOS_SUPER_MAGIC};
use crate::time::{fat_time_to_unix_time, spec_fat_decode_sec, FAT_DATE_MIN, FAT_DATE_MAX,
    FAT_TIME_MAX};

/// First data cluster number; clusters 0 and 1 are reserved.
pub const FAT_START_ENT: u32 = 2;

/// Most clusters a 12-bit FAT may address.
pub const FAT12_MAX_CLUSTERS: usize = 0xff4;

/// Most clusters a 16-bit FAT may address.
pub const FAT16_MAX_CLUSTERS: usize = 0xfff4;

/// Bytes of one on-disk directory entry.
pub const FAT_DIR_ENTRY_SIZE: usize = 32;

/// Low bit of the FAT16 state byte: the volume was not cleanly unmounted.
pub const FAT_STATE_DIRTY: u8 = 1;

/// Mount-time options that affect this core: an explicit timezone override
/// and whether writes are flushed eagerly on close.
#[derive(Clone, Copy, PartialEq, Eq, Structural, Debug)]
pub struct BS2FatMountOptions {
    pub timezone_set: bool,
    pub time_offset: i64,
    pub flush: bool,
}

impl Default for BS2FatMountOptions {
    /// No timezone override, no eager flushing.
    fn default() -> (r: BS2FatMountOptions)
        ensures
            r == (BS2FatMountOptions { timezone_set: false, time_offset: 0, flush: false }),
    {
        BS2FatMountOptions { timezone_set: false, time_offset: 0, flush: false }
    }
}

/// The derived per-volume geometry and state of a mounted FAT filesystem.
///
/// `free_clusters` is `None` while the free count is unknown; the on-disk
/// source of that count still has to be trusted separately, which
/// `free_clusters_valid` records.
#[derive(Clone, Copy, PartialEq, Eq, Debug)]
pub struct BS2FatSuperOps {
    pub sectors_per_cluster: u16,
    pub cluster_bits: u16,
    pub cluster_size: u32,

    /// Number of FAT copies.
    pub fats: u8,
    /// FAT entry width: 12 or 16.
    pub fat_bits: u8,
    pub fat_start: u16,
    pub fat_length: u16,

    pub dir_start: usize,
    pub dir_entries: u16,

    pub data_start: usize,

    /// One past the largest valid cluster number.
    pub max_cluster: usize,
    pub root_cluster: isize,
    pub previous_free: u32,
    pub free_clusters: Option<u32>,
    pub free_clusters_valid: bool,

    pub options: BS2FatMountOptions,

    /// Directory entries per block.
    pub dir_per_block: i32,
    pub dir_per_block_bits: i32,

    pub volume_id: u32,

    /// Filesystem state before the mount: nonzero when dirty.
    pub dirty: u32,
}

impl BS2FatSuperOps {
    /// Whether the volume uses 16-bit FAT entries.
    pub open spec fn spec_is_fat16(self) -> bool {
        self.fat_bits == 16
    }

    pub fn is_fat16(&self) -> (r: bool)
        ensures
            r == self.spec_is_fat16(),
    {
        self.fat_bits == 16
    }

    /// The format ceiling on the cluster count for this FAT width.
    pub open spec fn spec_max_fats(self) -> int {
        if self.spec_is_fat16() {
            FAT16_MAX_CLUSTERS as int
        } else {
            FAT12_MAX_CLUSTERS as int
        }
    }

    pub fn max_fats(&self) -> (r: usize)
        ensures
            r == self.spec_max_fats(),
    {
        if self.is_fat16() {
            FAT16_MAX_CLUSTERS
        } else {
            FAT12_MAX_CLUSTERS
        }
    }

    /// The mount's timezone offset in seconds, west-positive: the explicit
    /// mount option when one was set, else the system's minutes-west value.
    pub open spec fn spec_timezone_offset(self, sys_tz_minutes_west: int) -> int {
        (if self.options.timezone_set {
            -self.options.time_offset
        } else {
            sys_tz_minutes_west
        }) * 60
    }

    pub fn timezone_offset(&self, sys_tz_minutes_west: i64) -> (r: i64)
        requires
            -0x0100_0000_0000_0000 <= self.options.time_offset <= 0x0100_0000_0000_0000,
            -0x0100_0000_0000_0000 <= sys_tz_minutes_west <= 0x0100_0000_0000_0000,
        ensures
            r == self.spec_timezone_offset(sys_tz_minutes_west as int),
            -0x4000_0000_0000_0000 <= r <= 0x4000_0000_0000_0000,
    {
        let minutes: i64 = if self.options.timezone_set {
            -self.options.time_offset
        } else {
            sys_tz_minutes_west
        };
        minutes * 60
    }
}

/// Decides what must happen to the device block size before the geometry
/// can be derived: a logical sector smaller than the device block is an
/// I/O-class failure, a larger one asks the host to raise the device
/// block size to the returned value and re-read block zero, and an equal
/// one needs nothing.
#[allow(unused_variables)]
pub fn fat_blocksize_update(logical_sector_size: u64, device_block_size: u64, silent: bool) -> (r:
    Result<Option<u64>, FillSuperErrorKind>)
    ensures
        (r is Err) <==> logical_sector_size < device_block_size,
        r matches Err(k) ==> (k matches FillSuperErrorKind::Fail(e) && e.code() == -5),
        logical_sector_size > device_block_size ==> r == Ok::<Option<u64>, FillSuperErrorKind>(
            Some(logical_sector_size)),
        logical_sector_size == device_block_size ==> r == Ok::<Option<u64>, FillSuperErrorKind>(
            None::<u64>),
{
    if logical_sector_size < device_block_size {
        // logical sector size too small for the device
        return Err(FillSuperErrorKind::Fail(Error::eio()));
    }
    if logical_sector_size > device_block_size {
        Ok(Some(logical_sector_size))
    } else {
        Ok(None)
    }
}

/// Fills the mount-wide superblock fields: the no-access-time flags, the
/// MS-DOS magic, one-second time granularity, the 32-bit maximum file
/// size, and the representable time range under this mount's timezone.
///
/// The timezone resolution is west-positive while the decode direction
/// subtracts an east-positive offset, so the value is negated on the way
/// into the codec.
pub fn fat_setup_super(sb: &mut SuperBlock, ops: &BS2FatSuperOps, sys_tz_minutes_west: i64)
    requires
        -0x0100_0000_0000_0000 <= ops.options.time_offset <= 0x0100_0000_0000_0000,
        -0x0100_0000_0000_0000 <= sys_tz_minutes_west <= 0x0100_0000_0000_0000,
    ensures
        final(sb).s_flags == old(sb).s_flags | SB_NODIRATIME | SB_NOATIME,
        final(sb).s_magic == MSDOS_SUPER_MAGIC,
        final(sb).s_time_gran == 1,
        final(sb).s_maxbytes == 0xffffffff,
        final(sb).s_time_min == spec_fat_decode_sec(0, FAT_DATE_MIN, -ops.spec_timezone_offset(
            sys_tz_minutes_west as int)),
        final(sb).s_time_max == spec_fat_decode_sec(FAT_TIME_MAX, FAT_DATE_MAX,
            -ops.spec_timezone_offset(sys_tz_minutes_west as int)),
        final(sb).s_blocksize == old(sb).s_blocksize,
        final(sb).s_fs_info == old(sb).s_fs_info,
{
    sb.s_flags = sb.s_flags | SB_NODIRATIME;
    sb.s_magic = MSDOS_SUPER_MAGIC;
    sb.s_time_gran = 1;
    sb.s_flags = sb.s_flags | SB_NOATIME;
    sb.s_maxbytes = 0xffffffff;
    let tz: i64 = ops.timezone_offset(sys_tz_minutes_west);
    sb.s_time_min = fat_time_to_unix_time(0, FAT_DATE_MIN, 0, -tz).tv_sec;
    sb.s_time_max = fat_time_to_unix_time(FAT_TIME_MAX, FAT_DATE_MAX, 0, -tz).tv_sec;
}

/// Bytes of one cluster: the block size times the sectors per cluster.
pub open spec fn spec_cluster_size(bpb: BiosParamBlock) -> int {
    bpb.sector_size * bpb.sectors_per_cluster
}

/// Directory entries that fit in one block.
pub open spec fn spec_dir_per_block(bpb: BiosParamBlock) -> int {
    bpb.sector_size as int / FAT_DIR_ENTRY_SIZE as int
}

/// First sector of the root directory region: the reserved sectors
/// followed by every FAT copy.
pub open spec fn spec_dir_start(bpb: BiosParamBlock) -> int {
    bpb.reserved + bpb.fats * bpb.fat_length
}

/// Sectors the root directory occupies (floor division; exact whenever the
/// entry count is a whole number of blocks).
pub open spec fn spec_rootdir_sectors(bpb: BiosParamBlock) -> int {
    bpb.dir_entries * FAT_DIR_ENTRY_SIZE as int / bpb.sector_size as int
}

/// First sector of the data region.
pub open spec fn spec_data_start(bpb: BiosParamBlock) -> int {
    spec_dir_start(bpb) + spec_rootdir_sectors(bpb)
}

/// Total sectors of the volume: the 16-bit field, or the 32-bit field when
/// the former is zero.
pub open spec fn spec_total_sectors(bpb: BiosParamBlock) -> int {
    if bpb.sectors != 0 {
        bpb.sectors as int
    } else {
        bpb.total_sectors as int
    }
}

/// Clusters of the data region, before any capacity clamp.
pub open spec fn spec_total_clusters(bpb: BiosParamBlock) -> int {
    (spec_total_sectors(bpb) - spec_data_start(bpb)) / bpb.sectors_per_cluster as int
}

/// Whether the directory entry count is a whole number of blocks.
pub open spec fn spec_dir_entries_aligned(bpb: BiosParamBlock) -> bool {
    bpb.dir_entries as int % spec_dir_per_block(bpb) == 0
}

/// Whether the volume is large enough to hold its own metadata regions.
pub open spec fn spec_enough_sectors(bpb: BiosParamBlock) -> bool {
    spec_total_sectors(bpb) >= spec_data_start(bpb)
}

/// The provisional FAT entry width, chosen from the unclamped cluster count.
pub open spec fn spec_fat_bits(bpb: BiosParamBlock) -> int {
    if spec_total_clusters(bpb) <= FAT12_MAX_CLUSTERS as int {
        12
    } else {
        16
    }
}

/// Derives every geometry field that follows from the validated parameter
/// block alone, along with the unclamped cluster count. Fails as an
/// invalid format when the directory entry count is not a whole number of
/// blocks, or the volume cannot even hold its metadata regions.
/// `max_cluster` stays zero until [`fat_finish_geometry`] derives it.
#[allow(unused_variables)]
pub fn fat_fill_geometry(bpb: &BiosParamBlock, options: BS2FatMountOptions, silent: bool) -> (r:
    Result<(BS2FatSuperOps, usize), FillSuperErrorKind>)
    requires
        spec_bpb_fields_valid(*bpb),
    ensures
        (r is Ok) <==> (spec_dir_entries_aligned(*bpb) && spec_enough_sectors(*bpb)),
        r matches Err(k) ==> k is Invalid,
        r matches Ok(p) ==> ({
            let g = p.0;
            &&& g.sectors_per_cluster == bpb.sectors_per_cluster as u16
            &&& g.cluster_size == spec_cluster_size(*bpb)
            &&& pow2(g.cluster_bits as nat) == g.cluster_size
            &&& g.fats == bpb.fats
            &&& g.fat_bits == spec_fat_bits(*bpb)
            &&& g.fat_start == bpb.reserved
            &&& g.fat_length == bpb.fat_length
            &&& g.dir_start == spec_dir_start(*bpb)
            &&& g.dir_entries == bpb.dir_entries
            &&& g.data_start == spec_data_start(*bpb)
            &&& g.max_cluster == 0
            &&& g.root_cluster == 0
            &&& g.previous_free == FAT_START_ENT
            &&& g.free_clusters is None
            &&& !g.free_clusters_valid
            &&& g.options == options
            &&& g.dir_per_block == spec_dir_per_block(*bpb)
            &&& pow2(g.dir_per_block_bits as nat) == g.dir_per_block
            &&& g.volume_id == bpb.fat16_vol_id
            &&& g.dirty == (bpb.fat16_state & FAT_STATE_DIRTY) as u32
            &&& p.1 == spec_total_clusters(*bpb)
        }),
{
    let block_size: usize = bpb.sector_size as usize;

    proof {
        lemma_mul_upper_bound(bpb.sector_size as int, 4096, bpb.sectors_per_cluster as int, 255);
    }
    let cluster_size: u32 = bpb.sector_size as u32 * bpb.sectors_per_cluster as u32;
    proof {
        lemma_pow2_mul(bpb.sector_size as int, bpb.sectors_per_cluster as int);
    }
    let cluster_bits: u16 = log2_of_pow2_u64(cluster_size as u64) as u16;

    let dir_per_block: i32 = (block_size / FAT_DIR_ENTRY_SIZE) as i32;
    proof {
        lemma_pow2_div32(bpb.sector_size as int);
    }
    let dir_per_block_bits: i32 = log2_of_pow2_u64(dir_per_block as u64) as i32;

    proof {
        lemma_mul_upper_bound(bpb.fats as int, 255, bpb.fat_length as int, 65535);
    }
    let dir_start: usize = bpb.reserved as usize + bpb.fats as usize * bpb.fat_length as usize;

    if bpb.dir_entries as u32 % (dir_per_block as u32) != 0 {
        // bogus number of directory entries
        return Err(FillSuperErrorKind::Invalid);
    }

    let rootdir_sectors: usize = bpb.dir_entries as usize * FAT_DIR_ENTRY_SIZE / block_size;
    let data_start: usize = dir_start + rootdir_sectors;

    let total_sectors: u32 = if bpb.sectors != 0 {
        bpb.sectors as u32
    } else {
        bpb.total_sectors
    };

    if (total_sectors as usize) < data_start {
        // the volume cannot even hold its reserved, FAT and root regions
        return Err(FillSuperErrorKind::Invalid);
    }
    proof {
        crate::arith::lemma_pow2_from_is_pow2(bpb.sectors_per_cluster as int);
    }
    let total_clusters: usize = (total_sectors as usize - data_start)
        / bpb.sectors_per_cluster as usize;

    let fat_bits: u8 = if total_clusters <= FAT12_MAX_CLUSTERS {
        12
    } else {
        16
    };

    let ops = BS2FatSuperOps {
        sectors_per_cluster: bpb.sectors_per_cluster as u16,
        cluster_bits,
        cluster_size,
        fats: bpb.fats,
        fat_bits,
        fat_start: bpb.reserved,
        fat_length: bpb.fat_length,
        dir_start,
        dir_entries: bpb.dir_entries,
        data_start,
        max_cluster: 0,
        root_cluster: 0,
        previous_free: FAT_START_ENT,
        free_clusters: None,
        free_clusters_valid: false,
        options,
        dir_per_block,
        dir_per_block_bits,
        volume_id: bpb.fat16_vol_id,
        dirty: (bpb.fat16_state & FAT_STATE_DIRTY) as u32,
    };
    Ok((ops, total_clusters))
}

/// The cluster count after the FAT table's own capacity is applied: the
/// table can address `fat_clusters` entries, two of which are reserved.
pub open spec fn spec_clamped_clusters(total_clusters: int, fat_clusters: int) -> int {
    if total_clusters <= fat_clusters - 2 {
        total_clusters
    } else {
        fat_clusters - 2
    }
}

/// The geometry that a successful [`fat_finish_geometry`] yields: the
/// final cluster bound is set, a believed free count above the clamped
/// total is reset to unknown, and the allocation cursor is reduced into
/// range, never below the first data cluster.
pub open spec fn spec_finish_geometry(ops: BS2FatSuperOps, total_clusters: int,
    fat_clusters: int) -> BS2FatSuperOps {
    let clamped = spec_clamped_clusters(total_clusters, fat_clusters);
    let max_cluster = clamped + FAT_START_ENT as int;
    let pf = ops.previous_free as int % max_cluster;
    BS2FatSuperOps {
        max_cluster: max_cluster as usize,
        free_clusters: match ops.free_clusters {
            Some(f) => if f <= clamped {
                Some(f)
            } else {
                None
            },
            None => None,
        },
        previous_free: (if pf < FAT_START_ENT as int {
            FAT_START_ENT as int
        } else {
            pf
        }) as u32,
        ..ops
    }
}

/// Finishes the geometry once the host has derived `fat_clusters`, the
/// number of entries the FAT table itself can hold. The cluster count is
/// clamped to that capacity; a count above the format ceiling for the
/// chosen FAT width is an invalid format, as is a table without room for
/// the two reserved entries. On success the final cluster bound is set,
/// a believed free count that exceeds the clamped total is reset to
/// unknown, and the allocation cursor is brought back into range.
#[allow(unused_variables)]
pub fn fat_finish_geometry(ops: BS2FatSuperOps, total_clusters: usize, fat_clusters: usize,
    silent: bool) -> (r: Result<BS2FatSuperOps, FillSuperErrorKind>)
    ensures
        (r is Ok) <==> (fat_clusters >= FAT_START_ENT && spec_clamped_clusters(
            total_clusters as int, fat_clusters as int) <= ops.spec_max_fats()),
        r matches Err(k) ==> k is Invalid,
        r matches Ok(g) ==> g == spec_finish_geometry(ops, total_clusters as int,
            fat_clusters as int),
{
    if fat_clusters < FAT_START_ENT as usize {
        // the FAT table lacks room for even its two reserved entries
        return Err(FillSuperErrorKind::Invalid);
    }
    let capacity: usize = fat_clusters - FAT_START_ENT as usize;
    let clamped: usize = if total_clusters <= capacity {
        total_clusters
    } else {
        capacity
    };
    if clamped > ops.max_fats() {
        // count of clusters too big
        return Err(FillSuperErrorKind::Invalid);
    }
    let max_cluster: usize = clamped + FAT_START_ENT as usize;

    let free_clusters: Option<u32> = match ops.free_clusters {
        Some(f) => if f as usize <= clamped {
            Some(f)
        } else {
            None
        },
        None => None,
    };

    let pf: u32 = ops.previous_free % (max_cluster as u32);
    let previous_free: u32 = if pf < FAT_START_ENT {
        FAT_START_ENT
    } else {
        pf
    };

    Ok(BS2FatSuperOps { max_cluster, free_clusters, previous_free, ..ops })
}

} // verus!
