//! Versions, geometry and partition sizes of the card, decoded from its CSD
//! and extended CSD, and the choice of the partition whose capacity the
//! host exposes.
use vstd::prelude::*;
use crate::emmc::aux::{
    lldiv, MMC_VERSION_1_2, MMC_VERSION_1_4, MMC_VERSION_2_2, MMC_VERSION_3, MMC_VERSION_4,
    MMC_VERSION_4_1, MMC_VERSION_4_2, MMC_VERSION_4_3, MMC_VERSION_4_41, MMC_VERSION_4_5,
    MMC_VERSION_5_0, MMC_VERSION_5_1, MMC_VERSION_UNKNOWN,
};
use crate::emmc::card::EMmcCard;
use crate::emmc::err::SdError;
use crate::emmc::host::{with_card, EMmcHost};

verus! {

/// MMC version announced by the structure field of the CSD (bits 29:26 of
/// its first word); an unlisted value counts as 1.2.
pub open spec fn spec_csd_mmc_version(csd0: u32) -> u32 {
    let v = (csd0 >> 26u32) & 0xf;
    if v == 1 {
        MMC_VERSION_1_4
    } else if v == 2 {
        MMC_VERSION_2_2
    } else if v == 3 {
        MMC_VERSION_3
    } else if v == 4 {
        MMC_VERSION_4
    } else {
        MMC_VERSION_1_2
    }
}

/// The CSD structure version (bits 29:26 of the first word) names the MMC
/// version of an older card: 0 and any unassigned value 1.2, 1 is 1.4, 2 is
/// 2.2, 3 is 3.x and 4 is 4.x (MMC versions encoded as 0x4000_0000 |
/// major << 16 | minor << 8 | change); a later structure version names a
/// later card version.
pub proof fn law_csd_structure_versions(csd0: u32, other: u32)
    ensures
        ({
            let v = (csd0 >> 26u32) & 0xf;
            spec_csd_mmc_version(csd0) == (if v == 1 {
                0x4001_0400u32
            } else if v == 2 {
                0x4002_0200u32
            } else if v == 3 {
                0x4003_0000u32
            } else if v == 4 {
                0x4004_0000u32
            } else {
                0x4001_0200u32
            })
        }),
        ({
            let v = (csd0 >> 26u32) & 0xf;
            let w = (other >> 26u32) & 0xf;
            v < w && w <= 4 ==> spec_csd_mmc_version(csd0) < spec_csd_mmc_version(other)
        }),
{
}

/// Extended-CSD revisions the host knows a version for.
pub open spec fn known_ext_csd_rev(rev: u8) -> bool {
    rev == 1 || rev == 2 || rev == 3 || (5 <= rev && rev <= 8)
}

/// MMC version of an extended-CSD revision.
pub open spec fn spec_ext_csd_mmc_version(rev: u8) -> u32 {
    if rev == 1 {
        MMC_VERSION_4_1
    } else if rev == 2 {
        MMC_VERSION_4_2
    } else if rev == 3 {
        MMC_VERSION_4_3
    } else if rev == 5 {
        MMC_VERSION_4_41
    } else if rev == 6 {
        MMC_VERSION_4_5
    } else if rev == 7 {
        MMC_VERSION_5_0
    } else {
        MMC_VERSION_5_1
    }
}

/// Each known extended-CSD revision names its own MMC version: 1 is 4.1,
/// 2 is 4.2, 3 is 4.3, 5 is 4.41, 6 is 4.5, 7 is 5.0 and 8 is 5.1 (MMC
/// versions encoded as 0x4000_0000 | major << 16 | minor << 8 | change);
/// a later revision always names a later version.
pub proof fn law_ext_csd_rev_versions(r1: u8, r2: u8)
    requires
        known_ext_csd_rev(r1),
        known_ext_csd_rev(r2),
    ensures
        r1 < r2 ==> spec_ext_csd_mmc_version(r1) < spec_ext_csd_mmc_version(r2),
        spec_ext_csd_mmc_version(r1) == spec_ext_csd_mmc_version(r2) ==> r1 == r2,
        spec_ext_csd_mmc_version(r1) == (if r1 == 1 {
            0x4004_0100u32
        } else if r1 == 2 {
            0x4004_0200u32
        } else if r1 == 3 {
            0x4004_0300u32
        } else if r1 == 5 {
            0x4004_0401u32
        } else if r1 == 6 {
            0x4004_0500u32
        } else if r1 == 7 {
            0x4005_0000u32
        } else {
            0x4005_0100u32
        }),
{
}

/// MMC version of a known extended-CSD revision.
pub fn mmc_version_of_ext_csd_rev(rev: u8) -> (v: u32)
    requires
        known_ext_csd_rev(rev),
    ensures
        v == spec_ext_csd_mmc_version(rev),
{
    match rev {
        1 => MMC_VERSION_4_1,
        2 => MMC_VERSION_4_2,
        3 => MMC_VERSION_4_3,
        5 => MMC_VERSION_4_41,
        6 => MMC_VERSION_4_5,
        7 => MMC_VERSION_5_0,
        _ => MMC_VERSION_5_1,
    }
}

impl EMmcCard {
    /// While the version is unknown, take it from the CSD structure field;
    /// a known version stays.
    pub fn adopt_csd_version(&mut self)
        ensures
            *final(self) == (if old(self).version == MMC_VERSION_UNKNOWN {
                EMmcCard { version: spec_csd_mmc_version(old(self).csd[0]), ..*old(self) }
            } else {
                *old(self)
            }),
    {
        if self.version == MMC_VERSION_UNKNOWN {
            let csd_version = (self.csd[0] >> 26u32) & 0xf;
            self.version = match csd_version {
                0 => MMC_VERSION_1_2,
                1 => MMC_VERSION_1_4,
                2 => MMC_VERSION_2_2,
                3 => MMC_VERSION_3,
                4 => MMC_VERSION_4,
                _ => MMC_VERSION_1_2,
            };
        }
    }
}

/// Geometry of the card read from its CSD.
#[derive(Debug, Clone, Copy, PartialEq, Eq, Structural)]
pub struct CsdGeometry {
    /// Whether the card implements the driver stage register.
    pub dsr_imp: u32,
    /// Read block length field.
    pub read_bl_len: u32,
    /// Write block length field.
    pub write_bl_len: u32,
    /// Device size field.
    pub csize: u32,
    /// Device size multiplier field.
    pub cmult: u32,
    /// User capacity: `(csize + 1) << (cmult + 2)`, times the read block
    /// length field.
    pub capacity_user: u64,
    /// Erase group size from the CSD's group size and multiplier fields.
    pub erase_grp_size: u32,
}

/// Device size field of the CSD: 22 bits for a high-capacity card, 12 bits
/// otherwise.
pub open spec fn spec_csd_csize(csd: [u32; 4], high_capacity: bool) -> u32 {
    if high_capacity {
        ((csd[1] & 0x3f) << 16u32) | ((csd[2] & 0xffff0000) >> 16u32)
    } else {
        ((csd[1] & 0x3ff) << 2u32) | ((csd[2] & 0xc0000000) >> 30u32)
    }
}

/// Device size multiplier of the CSD: fixed at 8 for a high-capacity card.
pub open spec fn spec_csd_cmult(csd: [u32; 4], high_capacity: bool) -> u32 {
    if high_capacity {
        8
    } else {
        (csd[2] & 0x00038000) >> 15u32
    }
}

/// The geometry a CSD describes.
pub open spec fn spec_csd_geometry(csd: [u32; 4], high_capacity: bool) -> CsdGeometry {
    let csize = spec_csd_csize(csd, high_capacity);
    let cmult = spec_csd_cmult(csd, high_capacity);
    let read_bl_len = (csd[1] >> 16u32) & 0xf;
    CsdGeometry {
        dsr_imp: (csd[1] >> 12u32) & 0x1,
        read_bl_len,
        write_bl_len: (csd[3] >> 22u32) & 0xf,
        csize,
        cmult,
        capacity_user: ((csize + 1) * vstd::arithmetic::power2::pow2((cmult + 2) as nat) * read_bl_len) as u64,
        erase_grp_size: ((((csd[2] & 0x7c00) >> 10u32) + 1) * (((csd[2] & 0x3e0) >> 5u32) + 1)) as u32,
    }
}

/// Decode the geometry fields of a CSD.
pub fn decode_csd_geometry(csd: &[u32; 4], high_capacity: bool) -> (g: CsdGeometry)
    ensures
        g == spec_csd_geometry(*csd, high_capacity),
        g.capacity_user == (g.csize + 1) * vstd::arithmetic::power2::pow2((g.cmult + 2) as nat) * g.read_bl_len,
{
    let c1 = csd[1];
    let c2 = csd[2];
    let c3 = csd[3];
    let dsr_imp = (c1 >> 12u32) & 0x1;
    let read_bl_len = (c1 >> 16u32) & 0xf;
    let write_bl_len = (c3 >> 22u32) & 0xf;
    let (csize, cmult) = if high_capacity {
        (((c1 & 0x3f) << 16u32) | ((c2 & 0xffff0000) >> 16u32), 8u32)
    } else {
        (((c1 & 0x3ff) << 2u32) | ((c2 & 0xc0000000) >> 30u32), (c2 & 0x00038000) >> 15u32)
    };
    assert(csize < 0x40_0000 && cmult <= 8 && read_bl_len <= 15) by (bit_vector)
        requires
            read_bl_len == (c1 >> 16u32) & 0xf,
            high_capacity ==> csize == ((c1 & 0x3f) << 16u32) | ((c2 & 0xffff0000) >> 16u32) && cmult == 8,
            !high_capacity ==> csize == ((c1 & 0x3ff) << 2u32) | ((c2 & 0xc0000000) >> 30u32) && cmult == (c2
                & 0x00038000) >> 15u32,
    ;
    let x: u64 = csize as u64 + 1;
    let shift: u64 = (cmult + 2) as u64;
    proof {
        vstd::arithmetic::power2::lemma2_to64();
        if shift < 10 {
            vstd::arithmetic::power2::lemma_pow2_strictly_increases(shift as nat, 10);
        }
        vstd::arithmetic::power2::lemma_pow2_pos(shift as nat);
        assert(x * vstd::arithmetic::power2::pow2(shift as nat) <= 0x40_0000 * 1024) by (nonlinear_arith)
            requires
                1 <= x <= 0x40_0000,
                0 < vstd::arithmetic::power2::pow2(shift as nat) <= 1024,
        ;
        vstd::bits::lemma_u64_shl_is_mul(x, shift);
    }
    let blocks = x << shift;
    proof {
        assert(blocks * read_bl_len <= 0x40_0000 * 1024 * 15) by (nonlinear_arith)
            requires
                blocks <= 0x40_0000 * 1024,
                read_bl_len <= 15,
        ;
    }
    let capacity_user = blocks * read_bl_len as u64;
    let gsz = (c2 & 0x00007c00) >> 10u32;
    let gmul = (c2 & 0x000003e0) >> 5u32;
    assert(gsz <= 31 && gmul <= 31) by (bit_vector)
        requires
            gsz == (c2 & 0x00007c00) >> 10u32,
            gmul == (c2 & 0x000003e0) >> 5u32,
    ;
    assert((gsz + 1) * (gmul + 1) <= 1024) by (nonlinear_arith)
        requires
            gsz <= 31,
            gmul <= 31,
    ;
    CsdGeometry {
        dsr_imp,
        read_bl_len,
        write_bl_len,
        csize,
        cmult,
        capacity_user,
        erase_grp_size: (gsz + 1) * (gmul + 1),
    }
}

/// Extended-CSD bytes that size the card's partitions, each named by its
/// field; multi-byte fields are little-endian.
#[derive(Debug, Clone, Copy)]
pub struct ExtCsdSizeFields {
    /// Sector count.
    pub sec_cnt: [u8; 4],
    /// Boot partition size in 128 KiB units.
    pub boot_mult: u8,
    /// RPMB partition size in 128 KiB units.
    pub rpmb_mult: u8,
    /// Three-byte size multipliers of the four general-purpose partitions.
    pub gp_size_mult: [u8; 12],
    /// Three-byte size multiplier of the enhanced user area.
    pub enh_size_mult: [u8; 3],
    /// Start address of the enhanced user area.
    pub enh_start_addr: [u8; 4],
    /// High-capacity erase group size.
    pub hc_erase_grp_size: u8,
    /// High-capacity write-protect group size.
    pub hc_wp_grp_size: u8,
}

/// Partition sizes an extended CSD describes.
#[derive(Debug, Clone, Copy)]
pub struct ExtCsdSizes {
    /// Sector count.
    pub sectors: u64,
    /// Bytes of a boot partition.
    pub capacity_boot: u64,
    /// Bytes of the RPMB partition.
    pub capacity_rpmb: u64,
    /// Whether some general-purpose partition has a non-zero multiplier.
    pub gp_defined: bool,
    /// Bytes of each general-purpose partition.
    pub capacity_gp: [u64; 4],
    /// Bytes of the enhanced user area.
    pub enh_user_size: u64,
    /// Start of the enhanced user area; in bytes for a block-addressed card.
    pub enh_user_start: u64,
    /// Write-protect group size.
    pub hc_wp_grp_size: u64,
    /// Erase group size when the high-capacity erase groups are in use.
    pub hc_erase_grp_size: u32,
}

/// Little-endian value of three bytes.
pub open spec fn le24(b0: u8, b1: u8, b2: u8) -> int {
    b0 + 256 * b1 + 65536 * b2
}

/// Little-endian value of four bytes.
pub open spec fn le32(b: [u8; 4]) -> int {
    b[0] + 256 * b[1] + 65536 * b[2] + 16777216 * b[3]
}

/// A three-byte multiplier in units of erase group times write-protect
/// group times 512 KiB.
pub open spec fn spec_group_scaled(mult: int, erase: u8, wp: u8) -> int {
    mult * erase * wp * 524288
}

/// Size multiplier of general-purpose partition `i`.
pub open spec fn gp_mult(f: ExtCsdSizeFields, i: int) -> int {
    le24(f.gp_size_mult[3 * i], f.gp_size_mult[3 * i + 1], f.gp_size_mult[3 * i + 2])
}

/// A little-endian multiplier of an extended CSD: byte `k` weighs `256^k`.
proof fn lemma_le_bounds(b: [u8; 4], c0: u8, c1: u8, c2: u8)
    ensures
        0 <= le32(b) < 0x1_0000_0000,
        0 <= le24(c0, c1, c2) < 0x100_0000,
{
}

/// Size of general-purpose partition `i`.
pub open spec fn spec_gp_size(f: ExtCsdSizeFields, i: int) -> u64 {
    spec_group_scaled(gp_mult(f, i), f.hc_erase_grp_size, f.hc_wp_grp_size) as u64
}

/// The sizes an extended CSD describes.
pub open spec fn spec_ext_csd_sizes(f: ExtCsdSizeFields, high_capacity: bool) -> ExtCsdSizes {
    ExtCsdSizes {
        sectors: le32(f.sec_cnt) as u64,
        capacity_boot: (f.boot_mult * 131072) as u64,
        capacity_rpmb: (f.rpmb_mult * 131072) as u64,
        gp_defined: exists|i: int| 0 <= i < 4 && #[trigger] gp_mult(f, i) != 0,
        capacity_gp: [spec_gp_size(f, 0), spec_gp_size(f, 1), spec_gp_size(f, 2), spec_gp_size(f, 3)],
        enh_user_size: spec_group_scaled(
            le24(f.enh_size_mult[0], f.enh_size_mult[1], f.enh_size_mult[2]),
            f.hc_erase_grp_size,
            f.hc_wp_grp_size,
        ) as u64,
        enh_user_start: (if high_capacity {
            le32(f.enh_start_addr) * 512
        } else {
            le32(f.enh_start_addr)
        }) as u64,
        hc_wp_grp_size: (1024 * f.hc_erase_grp_size * f.hc_wp_grp_size) as u64,
        hc_erase_grp_size: (f.hc_erase_grp_size * 1024) as u32,
    }
}

/// The sizes an extended CSD gives: the sector count is its four bytes,
/// lowest first; boot and RPMB partitions come in 128 KiB units; a
/// general-purpose partition and the enhanced user area come in units of
/// (high-capacity erase group) x (write-protect group) x 512 KiB, their
/// three-byte multipliers lowest byte first; the erase group is 1024
/// sectors per unit and the write-protect group 1024 x erase x write-protect
/// sectors; the enhanced area's start is a sector number on a
/// block-addressed card, so it is scaled to bytes there.
pub proof fn law_ext_csd_size_units(f: ExtCsdSizeFields, high_capacity: bool, i: int)
    requires
        0 <= i < 4,
    ensures
        ({
            let z = spec_ext_csd_sizes(f, high_capacity);
            let start = f.enh_start_addr[0] + 0x100 * f.enh_start_addr[1] + 0x1_0000 * f.enh_start_addr[2]
                + 0x100_0000 * f.enh_start_addr[3];
            &&& z.sectors == f.sec_cnt[0] + 0x100 * f.sec_cnt[1] + 0x1_0000 * f.sec_cnt[2] + 0x100_0000
                * f.sec_cnt[3]
            &&& z.capacity_boot == f.boot_mult * 0x2_0000
            &&& z.capacity_rpmb == f.rpmb_mult * 0x2_0000
            &&& z.capacity_gp[i] == (f.gp_size_mult[3 * i] + 0x100 * f.gp_size_mult[3 * i + 1] + 0x1_0000
                * f.gp_size_mult[3 * i + 2]) * f.hc_erase_grp_size * f.hc_wp_grp_size * 0x8_0000
            &&& z.enh_user_size == (f.enh_size_mult[0] + 0x100 * f.enh_size_mult[1] + 0x1_0000
                * f.enh_size_mult[2]) * f.hc_erase_grp_size * f.hc_wp_grp_size * 0x8_0000
            &&& z.hc_erase_grp_size == f.hc_erase_grp_size * 1024
            &&& z.hc_wp_grp_size == 1024 * f.hc_erase_grp_size * f.hc_wp_grp_size
            &&& z.enh_user_start == (if high_capacity {
                start * 512
            } else {
                start
            })
        }),
{
    let e = f.hc_erase_grp_size;
    let w = f.hc_wp_grp_size;
    lemma_le_bounds(f.enh_start_addr, f.enh_size_mult[0], f.enh_size_mult[1], f.enh_size_mult[2]);
    let m = gp_mult(f, i);
    assert(0 <= m < 0x100_0000);
    assert(0 <= m * e * w * 524288 < 0x1_0000_0000_0000_0000) by (nonlinear_arith)
        requires
            0 <= m < 0x100_0000,
            0 <= e < 256,
            0 <= w < 256,
    ;
    let n = le24(f.enh_size_mult[0], f.enh_size_mult[1], f.enh_size_mult[2]);
    assert(0 <= n * e * w * 524288 < 0x1_0000_0000_0000_0000) by (nonlinear_arith)
        requires
            0 <= n < 0x100_0000,
            0 <= e < 256,
            0 <= w < 256,
    ;
    assert(0 <= 1024 * e * w < 0x1_0000_0000) by (nonlinear_arith)
        requires
            0 <= e < 256,
            0 <= w < 256,
    ;
    let z = spec_ext_csd_sizes(f, high_capacity);
    assert(z.capacity_gp[i] == spec_gp_size(f, i));
}

/// The three-byte little-endian multiplier `b0, b1, b2`.
fn three_byte_mult(b0: u8, b1: u8, b2: u8) -> (m: u64)
    ensures
        m == le24(b0, b1, b2),
        m < 0x100_0000,
{
    let hi = (b2 as u64) << 16u64;
    let mid = (b1 as u64) << 8u64;
    assert(hi == 65536 * b2 && mid == 256 * b1) by (bit_vector)
        requires
            hi == (b2 as u64) << 16u64,
            mid == (b1 as u64) << 8u64,
    ;
    hi + mid + (b0 as u64)
}

/// The four-byte little-endian value of `b`.
fn four_byte_value(b: &[u8; 4]) -> (v: u64)
    ensures
        v == le32(*b),
        v < 0x1_0000_0000,
{
    let (b0, b1, b2, b3) = (b[0], b[1], b[2], b[3]);
    let v = (b0 as u64) | ((b1 as u64) << 8u64) | ((b2 as u64) << 16u64) | ((b3 as u64) << 24u64);
    assert(v == b0 + 256 * b1 + 65536 * b2 + 16777216 * b3 && v < 0x1_0000_0000) by (bit_vector)
        requires
            v == (b0 as u64) | ((b1 as u64) << 8u64) | ((b2 as u64) << 16u64) | ((b3 as u64) << 24u64),
    ;
    v
}

/// A multiplier scaled by the erase and write-protect group sizes and by
/// 512 KiB.
fn group_scaled(mult: u64, erase: u8, wp: u8) -> (s: u64)
    requires
        mult < 0x100_0000,
    ensures
        s == spec_group_scaled(mult as int, erase, wp),
{
    assert(mult * erase < 0x100_0000 * 256) by (nonlinear_arith)
        requires
            mult < 0x100_0000,
            erase < 256,
    ;
    let y = mult * erase as u64;
    assert(y * wp < 0x100_0000 * 256 * 256) by (nonlinear_arith)
        requires
            y < 0x100_0000 * 256,
            wp < 256,
    ;
    let x = y * wp as u64;
    let s = x << 19u64;
    assert(s == x * 524288) by (bit_vector)
        requires
            x < 0x100_0000_0000,
            s == x << 19u64,
    ;
    s
}

/// Decode the partition sizes of an extended CSD.
pub fn decode_ext_csd_sizes(f: &ExtCsdSizeFields, high_capacity: bool) -> (r: ExtCsdSizes)
    ensures
        r == spec_ext_csd_sizes(*f, high_capacity),
{
    let erase = f.hc_erase_grp_size;
    let wp = f.hc_wp_grp_size;
    let g = &f.gp_size_mult;
    let m0 = three_byte_mult(g[0], g[1], g[2]);
    let m1 = three_byte_mult(g[3], g[4], g[5]);
    let m2 = three_byte_mult(g[6], g[7], g[8]);
    let m3 = three_byte_mult(g[9], g[10], g[11]);
    let gp_defined = m0 != 0 || m1 != 0 || m2 != 0 || m3 != 0;
    proof {
        let ff = *f;
        assert(gp_mult(ff, 0) == m0 && gp_mult(ff, 1) == m1 && gp_mult(ff, 2) == m2 && gp_mult(ff, 3) == m3);
        if !gp_defined {
            assert forall|i: int| 0 <= i < 4 implies #[trigger] gp_mult(ff, i) == 0 by {
                assert(i == 0 || i == 1 || i == 2 || i == 3);
            }
        }
    }
    let capacity_gp = [
        group_scaled(m0, erase, wp),
        group_scaled(m1, erase, wp),
        group_scaled(m2, erase, wp),
        group_scaled(m3, erase, wp),
    ];
    let e = &f.enh_size_mult;
    let enh_mult = three_byte_mult(e[0], e[1], e[2]);
    let enh_user_size = group_scaled(enh_mult, erase, wp);
    let start = four_byte_value(&f.enh_start_addr);
    let enh_user_start = if high_capacity {
        start << 9u64
    } else {
        start
    };
    assert(high_capacity ==> enh_user_start == start * 512) by (bit_vector)
        requires
            start < 0x1_0000_0000,
            high_capacity ==> enh_user_start == start << 9u64,
    ;
    let sectors = four_byte_value(&f.sec_cnt);
    let boot = (f.boot_mult as u64) << 17u64;
    let rpmb = (f.rpmb_mult as u64) << 17u64;
    let (bm, rm) = (f.boot_mult, f.rpmb_mult);
    assert(boot == bm * 131072 && rpmb == rm * 131072) by (bit_vector)
        requires
            boot == (bm as u64) << 17u64,
            rpmb == (rm as u64) << 17u64,
    ;
    assert(1024 * erase * wp <= 1024 * 255 * 255) by (nonlinear_arith)
        requires
            erase <= 255,
            wp <= 255,
    ;
    let r = ExtCsdSizes {
        sectors,
        capacity_boot: boot,
        capacity_rpmb: rpmb,
        gp_defined,
        capacity_gp,
        enh_user_size,
        enh_user_start,
        hc_wp_grp_size: 1024 * (erase as u64) * (wp as u64),
        hc_erase_grp_size: (erase as u32) * 1024,
    };
    assert(r.capacity_gp =~= spec_ext_csd_sizes(*f, high_capacity).capacity_gp);
    r
}

/// Capacity of partition `part_num` of a card: the user area (0), a boot
/// partition (1, 2), the RPMB partition (3) or a general-purpose partition
/// (4 to 7); nothing for other numbers.
pub open spec fn partition_capacity(c: EMmcCard, part_num: u32) -> Option<u64> {
    if part_num == 0 {
        Some(c.capacity_user)
    } else if part_num == 1 || part_num == 2 {
        Some(c.capacity_boot)
    } else if part_num == 3 {
        Some(c.capacity_rpmb)
    } else if 4 <= part_num <= 7 {
        Some(c.capacity_gp[part_num - 4])
    } else {
        None
    }
}

impl EMmcHost {
    /// Expose the capacity of partition `part_num` as the card's capacity.
    /// Without a card, or for a partition number past 7, nothing changes and
    /// the result is `InvalidArgument`.
    pub fn mmc_set_capacity(&mut self, part_num: u32) -> (r: Result<(), SdError>)
        requires
            old(self).card is Some && part_num <= 7 ==> old(self).card.unwrap().read_bl_len != 0,
        ensures
            match old(self).card {
                None => r == Err::<(), SdError>(SdError::InvalidArgument) && *final(self) == *old(self),
                Some(c) => match partition_capacity(c, part_num) {
                    Some(cap) => r is Ok && *final(self) == with_card(
                        *old(self),
                        Some(EMmcCard { capacity: cap, ..c }),
                    ),
                    None => r == Err::<(), SdError>(SdError::InvalidArgument) && *final(self) == *old(self),
                },
            },
    {
        let selected = match part_num {
            0 => self.capacity_user(),
            1 | 2 => self.capacity_boot(),
            3 => self.capacity_rpmb(),
            4..=7 => match self.capacity_gp() {
                Some(gp) => Some(gp[(part_num - 4) as usize]),
                None => None,
            },
            _ => { return Err(SdError::InvalidArgument); },
        };
        match selected {
            Some(capacity) => {
                let _ = self.set_capacity(capacity);
            },
            None => { return Err(SdError::InvalidArgument); },
        }
        let capacity = match self.capacity() {
            Some(c) => c,
            None => 0,
        };
        let read_bl_len = match self.read_bl_len() {
            Some(l) => l,
            None => 0,
        };
        let _lba = lldiv(capacity, read_bl_len);
        Ok(())
    }
}

} // verus!
