use bs2fat::bootsector::{fat_read_bpb, BootSector, BOOT_SECTOR_LEN};
use bs2fat::error::{from_kernel_result_helper, Error};

fn boot_bytes(
    sector_size: u16,
    sec_per_clus: u8,
    reserved: u16,
    fats: u8,
    dir_entries: u16,
    sectors: u16,
    media: u8,
    fat_length: u16,
    total_sectors: u32,
    state: u8,
    vol_id: u32,
) -> Vec<u8> {
    let mut b = vec![0u8; BOOT_SECTOR_LEN];
    b[11..13].copy_from_slice(&sector_size.to_le_bytes());
    b[13] = sec_per_clus;
    b[14..16].copy_from_slice(&reserved.to_le_bytes());
    b[16] = fats;
    b[17..19].copy_from_slice(&dir_entries.to_le_bytes());
    b[19..21].copy_from_slice(&sectors.to_le_bytes());
    b[21] = media;
    b[22..24].copy_from_slice(&fat_length.to_le_bytes());
    b[32..36].copy_from_slice(&total_sectors.to_le_bytes());
    b[37] = state;
    b[39..43].copy_from_slice(&vol_id.to_le_bytes());
    b
}

fn sector(bytes: Vec<u8>) -> BootSector {
    BootSector::from_bytes(bytes).expect("a full boot sector")
}

#[test]
fn from_bytes_needs_full_sector() {
    assert!(BootSector::from_bytes(vec![0u8; 511]).is_none());
    assert!(BootSector::from_bytes(vec![0u8; 513]).is_none());
    assert!(BootSector::from_bytes(vec![0u8; 512]).is_some());
}

#[test]
fn decode_copies_fields_exactly() {
    let b = sector(boot_bytes(
        512, 4, 1, 2, 512, 20480, 0xf8, 32, 0, 0x01, 0xdeadbeef,
    ));
    let bpb = fat_read_bpb(&b, false).expect("a valid boot sector");
    assert_eq!(bpb.sector_size, 512);
    assert_eq!(bpb.sectors_per_cluster, 4);
    assert_eq!(bpb.reserved, 1);
    assert_eq!(bpb.fats, 2);
    assert_eq!(bpb.dir_entries, 512);
    assert_eq!(bpb.sectors, 20480);
    assert_eq!(bpb.fat_length, 32);
    assert_eq!(bpb.total_sectors, 0);
    assert_eq!(bpb.fat16_state, 0x01);
    assert_eq!(bpb.fat16_vol_id, 0xdeadbeef);
}

#[test]
fn decode_reads_multibyte_fields_little_endian() {
    let mut bytes = boot_bytes(512, 1, 1, 1, 16, 0, 0xf0, 1, 0, 0, 0);
    bytes[11] = 0x00;
    bytes[12] = 0x02; // 0x0200 = 512
    bytes[32] = 0x78;
    bytes[33] = 0x56;
    bytes[34] = 0x34;
    bytes[35] = 0x12;
    let bpb = fat_read_bpb(&sector(bytes), false).expect("valid");
    assert_eq!(bpb.sector_size, 512);
    assert_eq!(bpb.total_sectors, 0x12345678);
}

#[test]
fn all_supported_sector_sizes_accepted() {
    for &ss in &[512u16, 1024, 2048, 4096] {
        for &spc in &[1u8, 2, 4, 8, 16, 32, 64, 128] {
            let b = sector(boot_bytes(ss, spc, 1, 2, 512, 0, 0xf8, 32, 40960, 0, 7));
            let bpb = fat_read_bpb(&b, false).expect("a valid boot sector");
            assert_eq!(bpb.sector_size, ss);
            assert_eq!(bpb.sectors_per_cluster, spc);
        }
    }
}

#[test]
fn sector_size_not_power_of_two_rejected() {
    for &ss in &[520u16, 513, 1000, 4095, 3072] {
        let b = sector(boot_bytes(ss, 4, 1, 2, 512, 0, 0xf8, 32, 40960, 0, 0));
        let e = fat_read_bpb(&b, false).expect_err("must be rejected");
        assert_eq!(e.to_kernel_errno(), -22);
    }
}

#[test]
fn sector_size_out_of_range_rejected() {
    for &ss in &[1u16, 2, 64, 128, 256, 8192, 16384, 32768] {
        let b = sector(boot_bytes(ss, 4, 1, 2, 512, 0, 0xf8, 32, 40960, 0, 0));
        let e = fat_read_bpb(&b, false).expect_err("must be rejected");
        assert_eq!(e.to_kernel_errno(), -22);
    }
}

#[test]
fn sectors_per_cluster_not_power_of_two_rejected() {
    for &spc in &[0u8, 3, 5, 6, 7, 12, 100, 255] {
        let b = sector(boot_bytes(512, spc, 1, 2, 512, 0, 0xf8, 32, 40960, 0, 0));
        assert!(fat_read_bpb(&b, false).is_err());
    }
}

#[test]
fn legal_media_values_pass_that_check() {
    for &media in &[0xf0u8, 0xf8, 0xf9, 0xfa, 0xfb, 0xfc, 0xfd, 0xfe, 0xff] {
        let b = sector(boot_bytes(512, 4, 1, 2, 512, 0, media, 32, 40960, 0, 0));
        assert!(fat_read_bpb(&b, false).is_ok());
    }
}

#[test]
fn illegal_media_values_rejected() {
    for &media in &[0x00u8, 0x01, 0x80, 0xe0, 0xf1, 0xf2, 0xf5, 0xf7] {
        let b = sector(boot_bytes(512, 4, 1, 2, 512, 0, media, 32, 40960, 0, 0));
        let e = fat_read_bpb(&b, false).expect_err("must be rejected");
        assert_eq!(e.to_kernel_errno(), -22);
    }
}

#[test]
fn zero_reserved_sectors_rejected() {
    let b = sector(boot_bytes(512, 4, 0, 2, 512, 0, 0xf8, 32, 40960, 0, 0));
    assert!(fat_read_bpb(&b, false).is_err());
}

#[test]
fn zero_fat_copies_rejected() {
    let b = sector(boot_bytes(512, 4, 1, 0, 512, 0, 0xf8, 32, 40960, 0, 0));
    assert!(fat_read_bpb(&b, false).is_err());
}

#[test]
fn zero_fat_length_rejected() {
    let b = sector(boot_bytes(512, 4, 1, 2, 512, 0, 0xf8, 0, 40960, 0, 0));
    assert!(fat_read_bpb(&b, false).is_err());
}

#[test]
fn silent_flag_never_changes_the_result() {
    let good = boot_bytes(1024, 8, 2, 2, 512, 0, 0xf0, 16, 8192, 0, 1);
    let bad = boot_bytes(1024, 8, 2, 2, 512, 0, 0x55, 16, 8192, 0, 1);
    assert_eq!(
        fat_read_bpb(&sector(good.clone()), false),
        fat_read_bpb(&sector(good), true)
    );
    assert_eq!(
        fat_read_bpb(&sector(bad.clone()), false),
        fat_read_bpb(&sector(bad), true)
    );
}

#[test]
fn error_codes_are_the_kernel_ones() {
    assert_eq!(Error::einval().to_kernel_errno(), -22);
    assert_eq!(Error::eio().to_kernel_errno(), -5);
    assert_eq!(Error::enomem().to_kernel_errno(), -12);
    assert_eq!(Error::enospc().to_kernel_errno(), -28);
    assert_eq!(Error::eopnotsupp().to_kernel_errno(), -95);
}

#[test]
fn out_of_range_errno_falls_back_to_einval() {
    assert_eq!(Error::from_kernel_errno(-5).to_kernel_errno(), -5);
    assert_eq!(Error::from_kernel_errno(0).to_kernel_errno(), -22);
    assert_eq!(Error::from_kernel_errno(17).to_kernel_errno(), -22);
    assert_eq!(Error::from_kernel_errno(-4096).to_kernel_errno(), -22);
    assert_eq!(Error::from_kernel_errno(-4095).to_kernel_errno(), -4095);
}

#[test]
fn kernel_result_helper_flattens_results() {
    assert_eq!(from_kernel_result_helper(Ok(42)), 42);
    assert_eq!(from_kernel_result_helper(Err(Error::eio())), -5);
}
