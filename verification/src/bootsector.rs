//! Boot-sector codec: decodes the raw, potentially byte-misaligned boot
//! sector read from block zero into a validated, CPU-native parameter block.
//!
//! All multi-byte fields are read little-endian, byte by byte, so the decode
//! never depends on host byte order or in-struct alignment.

use vstd::prelude::*;

verus! {

use vstd::arithmetic::power2::{is_pow2, is_pow2_exists, is_pow2_equiv, lemma_pow2, lemma2_to64};
use vstd::arithmetic::power::pow;
use crate::arith::is_power_of_two_u64;
use crate::error::Error;

/// Maximum length of an MS-DOS file name.
pub const MSDOS_NAME: usize = 11;

/// Byte length of a raw boot sector.
pub const BOOT_SECTOR_LEN: usize = 512;

/// The raw 512-byte boot sector, exactly as it stands on disk.
pub struct BootSector {
    bytes: Vec<u8>,
}

impl View for BootSector {
    type V = Seq<u8>;

    closed spec fn view(&self) -> Seq<u8> {
        self.bytes@
    }
}

impl BootSector {
    /// A boot sector always holds exactly one 512-byte block.
    pub open spec fn wf(self) -> bool {
        self@.len() == BOOT_SECTOR_LEN
    }

    /// Wraps the raw bytes of block zero; anything shorter than a full
    /// boot sector is refused.
    pub fn from_bytes(bytes: Vec<u8>) -> (r: Option<BootSector>)
        ensures
            bytes@.len() == BOOT_SECTOR_LEN ==> (r matches Some(b) && b@ == bytes@ && b.wf()),
            bytes@.len() != BOOT_SECTOR_LEN ==> r is None,
    {
        if bytes.len() == BOOT_SECTOR_LEN {
            Some(BootSector { bytes })
        } else {
            None
        }
    }
}

/// The two bytes at `i`, read as a little-endian 16-bit value.
pub open spec fn le16(s: Seq<u8>, i: int) -> int {
    s[i] + 256 * s[i + 1]
}

/// The four bytes at `i`, read as a little-endian 32-bit value.
pub open spec fn le32(s: Seq<u8>, i: int) -> int {
    le16(s, i) + 0x10000 * le16(s, i + 2)
}

/// Reads a little-endian 16-bit value, byte by byte.
pub fn read_u16_le(bytes: &Vec<u8>, off: usize) -> (r: u16)
    requires
        off + 2 <= bytes@.len(),
    ensures
        r == le16(bytes@, off as int),
{
    let _n = bytes.len();
    bytes[off] as u16 + (bytes[off + 1] as u16) * 256
}

/// Reads a little-endian 32-bit value, byte by byte.
pub fn read_u32_le(bytes: &Vec<u8>, off: usize) -> (r: u32)
    requires
        off + 4 <= bytes@.len(),
    ensures
        r == le32(bytes@, off as int),
{
    let _n = bytes.len();
    read_u16_le(bytes, off) as u32 + (read_u16_le(bytes, off + 2) as u32) * 0x10000
}

/// The decoded, CPU-native subset of the boot sector that the geometry
/// engine consumes. The FAT32 fields are reserved and stay zero.
#[derive(Clone, Copy, PartialEq, Eq, Structural, Debug)]
pub struct BiosParamBlock {
    pub sector_size: u16,
    pub sectors_per_cluster: u8,
    pub reserved: u16,
    pub fats: u8,
    pub dir_entries: u16,
    pub sectors: u16,
    pub fat_length: u16,
    pub total_sectors: u32,

    pub fat16_state: u8,
    pub fat16_vol_id: u32,

    pub _fat32_length: u32,
    pub _fat32_root_cluster: u32,
    pub _fat32_info_sector: u16,
    pub _fat32_state: u8,
    pub _fat32_vol_id: u32,
}

/// The parameter block that decoding a raw boot sector yields, field by
/// field, before any validation.
pub open spec fn spec_bpb(s: Seq<u8>) -> BiosParamBlock {
    BiosParamBlock {
        sector_size: le16(s, 11) as u16,
        sectors_per_cluster: s[13],
        reserved: le16(s, 14) as u16,
        fats: s[16],
        dir_entries: le16(s, 17) as u16,
        sectors: le16(s, 19) as u16,
        fat_length: le16(s, 22) as u16,
        total_sectors: le32(s, 32) as u32,
        fat16_state: s[37],
        fat16_vol_id: le32(s, 39) as u32,
        _fat32_length: 0,
        _fat32_root_cluster: 0,
        _fat32_info_sector: 0,
        _fat32_state: 0,
        _fat32_vol_id: 0,
    }
}

/// The media byte of a raw boot sector.
pub open spec fn spec_media(s: Seq<u8>) -> u8 {
    s[21]
}

/// The legal media byte values: 0xf0, or anything in [0xf8, 0xff].
pub open spec fn spec_media_valid(media: u8) -> bool {
    media == 0xf0 || media >= 0xf8
}

/// Every check the boot-sector codec performs; decoding succeeds exactly
/// when all of them hold.
pub open spec fn spec_bpb_valid(s: Seq<u8>) -> bool {
    &&& le16(s, 14) != 0  // reserved sectors
    &&& s[16] != 0  // FAT copies
    &&& spec_media_valid(spec_media(s))
    &&& is_pow2(le16(s, 11))  // sector size
    &&& 512 <= le16(s, 11) <= 4096
    &&& is_pow2(s[13] as int)  // sectors per cluster
    &&& le16(s, 22) != 0  // FAT length
}

/// The checks of `spec_bpb_valid`, restated on the decoded parameter
/// block itself (the media byte is not copied into it).
pub open spec fn spec_bpb_fields_valid(bpb: BiosParamBlock) -> bool {
    &&& bpb.reserved != 0
    &&& bpb.fats != 0
    &&& is_pow2(bpb.sector_size as int)
    &&& 512 <= bpb.sector_size <= 4096
    &&& is_pow2(bpb.sectors_per_cluster as int)
    &&& bpb.fat_length != 0
}

/// Decodes and validates the boot sector. Every failure is the same
/// invalid-format error; `silent` only gates diagnostics, which this core
/// leaves to the caller, and never changes the result.
#[allow(unused_variables)]
pub fn fat_read_bpb(b: &BootSector, silent: bool) -> (r: Result<BiosParamBlock, Error>)
    requires
        b.wf(),
    ensures
        spec_bpb_valid(b@) ==> r == Ok::<BiosParamBlock, Error>(spec_bpb(b@)),
        !spec_bpb_valid(b@) ==> r is Err,
        r matches Err(e) ==> e.code() == -22,
        r matches Ok(bpb) ==> spec_bpb_fields_valid(bpb),
{
    let bytes = &b.bytes;
    let bpb = BiosParamBlock {
        sector_size: read_u16_le(bytes, 11),
        sectors_per_cluster: bytes[13],
        reserved: read_u16_le(bytes, 14),
        fats: bytes[16],
        dir_entries: read_u16_le(bytes, 17),
        sectors: read_u16_le(bytes, 19),
        fat_length: read_u16_le(bytes, 22),
        total_sectors: read_u32_le(bytes, 32),
        fat16_state: bytes[37],
        fat16_vol_id: read_u32_le(bytes, 39),
        _fat32_length: 0,
        _fat32_root_cluster: 0,
        _fat32_info_sector: 0,
        _fat32_state: 0,
        _fat32_vol_id: 0,
    };
    let media = bytes[21];

    if bpb.reserved == 0 {
        // bogus number of reserved sectors
        return Err(Error::einval());
    }
    if bpb.fats == 0 {
        // bogus number of FAT structures
        return Err(Error::einval());
    }
    if !(media >= 0xf8 || media == 0xf0) {
        // invalid media value
        return Err(Error::einval());
    }
    if !is_power_of_two_u64(bpb.sector_size as u64) || bpb.sector_size < 512
        || bpb.sector_size > 4096 {
        // bogus logical sector size
        return Err(Error::einval());
    }
    if !is_power_of_two_u64(bpb.sectors_per_cluster as u64) {
        // bogus sectors per cluster
        return Err(Error::einval());
    }
    if bpb.fat_length == 0 {
        // bogus number of FAT sectors
        return Err(Error::einval());
    }

    Ok(bpb)
}

/// Each of the four supported sector sizes is a power of two.
pub proof fn lemma_supported_sector_sizes_pow2()
    ensures
        is_pow2(512),
        is_pow2(1024),
        is_pow2(2048),
        is_pow2(4096),
{
    lemma2_to64();
    lemma_pow2(9);
    lemma_pow2(10);
    lemma_pow2(11);
    lemma_pow2(12);
    assert(pow(2, 9) == 512 && pow(2, 10) == 1024 && pow(2, 11) == 2048 && pow(2, 12) == 4096);
    assert(is_pow2_exists(512) && is_pow2_exists(1024) && is_pow2_exists(2048)
        && is_pow2_exists(4096));
    is_pow2_equiv(512);
    is_pow2_equiv(1024);
    is_pow2_equiv(2048);
    is_pow2_equiv(4096);
}

/// For every boot sector with a supported sector size, a power-of-two
/// cluster size, legal media, and nonzero reserved-sector, FAT-copy and
/// FAT-length fields, decoding succeeds and hands back exactly the raw
/// little-endian fields.
pub proof fn lemma_valid_boot_sector_accepted(s: Seq<u8>)
    requires
        s.len() == BOOT_SECTOR_LEN,
        le16(s, 14) != 0,
        s[16] != 0,
        spec_media_valid(spec_media(s)),
        le16(s, 11) == 512 || le16(s, 11) == 1024 || le16(s, 11) == 2048 || le16(s, 11) == 4096,
        is_pow2(s[13] as int),
        le16(s, 22) != 0,
    ensures
        spec_bpb_valid(s),
        spec_bpb(s).sector_size == le16(s, 11),
        spec_bpb(s).sectors_per_cluster == s[13],
        spec_bpb(s).reserved == le16(s, 14),
        spec_bpb(s).fats == s[16],
        spec_bpb(s).dir_entries == le16(s, 17),
        spec_bpb(s).sectors == le16(s, 19),
        spec_bpb(s).fat_length == le16(s, 22),
        spec_bpb(s).total_sectors == le32(s, 32),
        spec_bpb(s).fat16_state == s[37],
        spec_bpb(s).fat16_vol_id == le32(s, 39),
{
    lemma_supported_sector_sizes_pow2();
}

/// A sector size that is not a power of two, or lies outside [512, 4096],
/// makes the whole boot sector invalid.
pub proof fn lemma_bad_sector_size_rejected(s: Seq<u8>)
    requires
        s.len() == BOOT_SECTOR_LEN,
        !is_pow2(le16(s, 11)) || le16(s, 11) < 512 || le16(s, 11) > 4096,
    ensures
        !spec_bpb_valid(s),
{
}

/// A media byte outside {0xf0} and [0xf8, 0xff] makes the whole boot
/// sector invalid.
pub proof fn lemma_bad_media_rejected(s: Seq<u8>)
    requires
        s.len() == BOOT_SECTOR_LEN,
        !spec_media_valid(spec_media(s)),
    ensures
        !spec_bpb_valid(s),
{
}

} // verus!
