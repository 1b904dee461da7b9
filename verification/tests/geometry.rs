use bs2fat::bootsector::BiosParamBlock;
use bs2fat::error::FillSuperErrorKind;
use bs2fat::super_block::{SuperBlock, MSDOS_SUPER_MAGIC, SB_NOATIME, SB_NODIRATIME};
use bs2fat::super_ops::{
    fat_blocksize_update, fat_fill_geometry, fat_finish_geometry, fat_setup_super,
    BS2FatMountOptions, BS2FatSuperOps,
};

fn bpb(
    sector_size: u16,
    sectors_per_cluster: u8,
    reserved: u16,
    fats: u8,
    dir_entries: u16,
    sectors: u16,
    fat_length: u16,
    total_sectors: u32,
) -> BiosParamBlock {
    BiosParamBlock {
        sector_size,
        sectors_per_cluster,
        reserved,
        fats,
        dir_entries,
        sectors,
        fat_length,
        total_sectors,
        fat16_state: 0,
        fat16_vol_id: 0,
        _fat32_length: 0,
        _fat32_root_cluster: 0,
        _fat32_info_sector: 0,
        _fat32_state: 0,
        _fat32_vol_id: 0,
    }
}

fn no_options() -> BS2FatMountOptions {
    BS2FatMountOptions { timezone_set: false, time_offset: 0, flush: false }
}

fn reference_geometry() -> (BS2FatSuperOps, usize) {
    let b = bpb(512, 4, 1, 2, 512, 20480, 32, 0);
    fat_fill_geometry(&b, no_options(), false).expect("a valid geometry")
}

#[test]
fn geometry_reference_volume() {
    let (ops, total_clusters) = reference_geometry();
    assert_eq!(ops.cluster_size, 2048);
    assert_eq!(ops.cluster_bits, 11);
    assert_eq!(ops.fats, 2);
    assert_eq!(ops.fat_start, 1);
    assert_eq!(ops.fat_length, 32);
    assert_eq!(ops.dir_per_block, 16);
    assert_eq!(ops.dir_per_block_bits, 4);
    assert_eq!(ops.dir_start, 65);
    assert_eq!(ops.dir_entries, 512);
    assert_eq!(ops.data_start, 97);
    assert_eq!(total_clusters, 5095);
    assert_eq!(ops.fat_bits, 16); // 5095 clusters exceed the FAT12 ceiling
    assert_eq!(ops.free_clusters, None);
    assert!(!ops.free_clusters_valid);
    assert_eq!(ops.previous_free, 2);

    // with a FAT16 table of 32 sectors * 512 bytes / 2 bytes = 8192 entries
    let finished = fat_finish_geometry(ops, total_clusters, 8192, false).expect("fits");
    assert_eq!(finished.max_cluster, 5097);
    assert!(finished.is_fat16());
    assert_eq!(finished.max_fats(), 0xfff4);
}

#[test]
fn geometry_unaligned_dir_entries_rejected() {
    // 511 entries with 16 entries per block is not a whole number of blocks
    let b = bpb(512, 4, 1, 2, 511, 20480, 32, 0);
    let e = fat_fill_geometry(&b, no_options(), false).expect_err("must be rejected");
    assert_eq!(e, FillSuperErrorKind::Invalid);
}

#[test]
fn geometry_uses_32bit_sector_count_when_16bit_is_zero() {
    let b = bpb(512, 4, 1, 2, 512, 0, 32, 20480);
    let (_, total_clusters) = fat_fill_geometry(&b, no_options(), false).expect("valid");
    assert_eq!(total_clusters, 5095);
}

#[test]
fn geometry_small_volume_is_fat12() {
    // 2048 sectors, 1 sector per cluster: under the FAT12 ceiling
    let b = bpb(512, 1, 1, 2, 224, 2048, 9, 0);
    let (ops, total_clusters) = fat_fill_geometry(&b, no_options(), false).expect("valid");
    assert_eq!(ops.fat_bits, 12);
    assert_eq!(ops.dir_start, 19);
    assert_eq!(ops.data_start, 33);
    assert_eq!(total_clusters, 2015);
    let finished = fat_finish_geometry(ops, total_clusters, 4096, false).expect("fits");
    assert!(!finished.is_fat16());
    assert_eq!(finished.max_fats(), 0xff4);
    assert_eq!(finished.max_cluster, 2017);
}

#[test]
fn geometry_volume_smaller_than_metadata_rejected() {
    let b = bpb(512, 4, 1, 2, 512, 96, 32, 0); // data region would start at 97
    let e = fat_fill_geometry(&b, no_options(), false).expect_err("must be rejected");
    assert_eq!(e, FillSuperErrorKind::Invalid);
}

#[test]
fn finish_geometry_clamps_to_fat_capacity() {
    let (ops, total_clusters) = reference_geometry();
    // a FAT that can address only 4000 entries leaves 3998 usable clusters
    let finished = fat_finish_geometry(ops, total_clusters, 4000, false).expect("fits");
    assert_eq!(finished.max_cluster, 4000);
}

#[test]
fn finish_geometry_rejects_count_over_format_ceiling() {
    let (mut ops, total_clusters) = reference_geometry();
    ops.fat_bits = 12; // pretend the width had been chosen as 12 bits
    let e = fat_finish_geometry(ops, total_clusters, 8192, false).expect_err("over 0xff4");
    assert_eq!(e, FillSuperErrorKind::Invalid);
}

#[test]
fn finish_geometry_rejects_fat_without_reserved_room() {
    let (ops, total_clusters) = reference_geometry();
    let e = fat_finish_geometry(ops, total_clusters, 1, false).expect_err("no room");
    assert_eq!(e, FillSuperErrorKind::Invalid);
}

#[test]
fn finish_geometry_resets_unbelievable_free_count() {
    let (mut ops, total_clusters) = reference_geometry();
    ops.free_clusters = Some(6000); // more than the 5095 usable clusters
    let finished = fat_finish_geometry(ops, total_clusters, 8192, false).expect("fits");
    assert_eq!(finished.free_clusters, None);

    let (mut ops2, tc2) = reference_geometry();
    ops2.free_clusters = Some(1234);
    let finished2 = fat_finish_geometry(ops2, tc2, 8192, false).expect("fits");
    assert_eq!(finished2.free_clusters, Some(1234));
}

#[test]
fn finish_geometry_brings_cursor_into_range() {
    let (mut ops, total_clusters) = reference_geometry();
    ops.previous_free = 60000; // beyond max_cluster 5097
    let finished = fat_finish_geometry(ops, total_clusters, 8192, false).expect("fits");
    assert_eq!(finished.previous_free, 60000 % 5097);

    let (mut ops2, tc2) = reference_geometry();
    ops2.previous_free = 5097; // reduces to 0, which is floored to 2
    let finished2 = fat_finish_geometry(ops2, tc2, 8192, false).expect("fits");
    assert_eq!(finished2.previous_free, 2);
}

#[test]
fn blocksize_smaller_than_device_fails_with_io_error() {
    let r = fat_blocksize_update(512, 4096, false);
    match r {
        Err(FillSuperErrorKind::Fail(e)) => assert_eq!(e.to_kernel_errno(), -5),
        other => panic!("expected an I/O failure, got {:?}", other),
    }
}

#[test]
fn blocksize_larger_than_device_asks_for_resize() {
    assert_eq!(fat_blocksize_update(4096, 512, false), Ok(Some(4096)));
}

#[test]
fn blocksize_equal_needs_nothing() {
    assert_eq!(fat_blocksize_update(512, 512, false), Ok(None));
}

#[test]
fn setup_super_fills_mount_fields() {
    let (ops, total_clusters) = reference_geometry();
    let ops = fat_finish_geometry(ops, total_clusters, 8192, false).expect("fits");
    let mut sb = SuperBlock {
        s_blocksize: 512,
        s_flags: 1,
        s_magic: 0,
        s_time_gran: 1_000_000_000,
        s_maxbytes: 0,
        s_time_min: 0,
        s_time_max: 0,
        s_fs_info: None,
    };
    fat_setup_super(&mut sb, &ops, 0);
    assert_eq!(sb.s_flags, 1 | SB_NODIRATIME | SB_NOATIME);
    assert_eq!(sb.s_magic, MSDOS_SUPER_MAGIC);
    assert_eq!(sb.s_time_gran, 1);
    assert_eq!(sb.s_maxbytes, 0xffffffff);
    assert_eq!(sb.s_time_min, 315_532_800);
    assert_eq!(sb.s_time_max, 4_354_819_198);

    assert_eq!(sb.set_super_operations(ops), Ok(()));
    assert_eq!(sb.s_fs_info, Some(ops));
}

#[test]
fn setup_super_applies_mount_timezone() {
    let (ops, total_clusters) = reference_geometry();
    let mut ops = fat_finish_geometry(ops, total_clusters, 8192, false).expect("fits");
    ops.options = BS2FatMountOptions { timezone_set: true, time_offset: 60, flush: false };
    let mut sb = SuperBlock {
        s_blocksize: 512,
        s_flags: 0,
        s_magic: 0,
        s_time_gran: 1,
        s_maxbytes: 0,
        s_time_min: 0,
        s_time_max: 0,
        s_fs_info: None,
    };
    // an explicit offset of +60 minutes puts local time an hour ahead:
    // the first representable UTC instant moves an hour earlier
    fat_setup_super(&mut sb, &ops, 0);
    assert_eq!(sb.s_time_min, 315_532_800 - 3600);
}

#[test]
fn default_mount_options_are_all_off() {
    let d = BS2FatMountOptions::default();
    assert_eq!(d, BS2FatMountOptions { timezone_set: false, time_offset: 0, flush: false });
}

#[test]
fn timezone_offset_prefers_mount_option() {
    let (mut ops, _) = reference_geometry();
    ops.options = BS2FatMountOptions { timezone_set: true, time_offset: 120, flush: false };
    assert_eq!(ops.timezone_offset(300), -7200);
    ops.options.timezone_set = false;
    assert_eq!(ops.timezone_offset(300), 18000);
}
