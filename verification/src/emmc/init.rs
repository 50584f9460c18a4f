//! The card-side decisions of eMMC initialization: what the operating
//! conditions, the CSD and the extended CSD set in the card's bookkeeping,
//! and when the driver stage register, the extended CSD and the erase group
//! switch are needed. Issuing the commands is the caller's part.
use vstd::prelude::*;
use crate::emmc::aux::{MMC_VERSION_4, MMC_VERSION_UNKNOWN};
use crate::emmc::card::EMmcCard;
use crate::emmc::partition::{
    decode_csd_geometry, decode_ext_csd_sizes, known_ext_csd_rev, mmc_version_of_ext_csd_rev,
    spec_csd_geometry, spec_csd_mmc_version, spec_ext_csd_mmc_version, spec_ext_csd_sizes,
    ExtCsdSizeFields,
};

verus! {

/// Largest block length the host transfers.
pub const MMC_MAX_BLOCK_LEN: u32 = 512;
/// Operating-conditions bit of a block-addressed (high-capacity) card.
pub const OCR_HCS: u32 = 0x4000_0000;
/// Partition configuration before the extended CSD is read.
pub const MMCPART_NOAVAILABLE: u8 = 0xff;

/// Extended CSD: start address of the enhanced user area.
pub const EXT_CSD_ENH_START_ADDR: usize = 136;
/// Extended CSD: size multiplier of the enhanced user area.
pub const EXT_CSD_ENH_SIZE_MULT: usize = 140;
/// Extended CSD: size multipliers of the general-purpose partitions.
pub const EXT_CSD_GP_SIZE_MULT: usize = 143;
/// Extended CSD: partition setting.
pub const EXT_CSD_PARTITION_SETTING: usize = 155;
/// Extended CSD: partition attributes.
pub const EXT_CSD_PARTITIONS_ATTRIBUTE: usize = 156;
/// Extended CSD: partitioning support.
pub const EXT_CSD_PARTITIONING_SUPPORT: usize = 160;
/// Extended CSD: reliable write setting.
pub const EXT_CSD_WR_REL_SET: usize = 167;
/// Extended CSD: RPMB size multiplier.
pub const EXT_CSD_RPMB_MULT: usize = 168;
/// Extended CSD: erase group definition.
pub const EXT_CSD_ERASE_GROUP_DEF: usize = 175;
/// Extended CSD: partition configuration.
pub const EXT_CSD_PART_CONF: usize = 179;
/// Extended CSD: revision.
pub const EXT_CSD_REV: usize = 192;
/// Extended CSD: driver strength.
pub const EXT_CSD_DRIVER_STRENGTH: usize = 197;
/// Extended CSD: sector count.
pub const EXT_CSD_SEC_CNT: usize = 212;
/// Extended CSD: high-capacity write-protect group size.
pub const EXT_CSD_HC_WP_GRP_SIZE: usize = 221;
/// Extended CSD: high-capacity erase group size.
pub const EXT_CSD_HC_ERASE_GRP_SIZE: usize = 224;
/// Extended CSD: boot partition size multiplier.
pub const EXT_CSD_BOOT_MULT: usize = 226;
/// Bytes of the extended CSD the host reads.
pub const EXT_CSD_LEN: usize = 512;

/// Partition setting: the partitioning is completed.
pub const EXT_CSD_PARTITION_SETTING_COMPLETED: u8 = 0x01;
/// Partitioning support: partitions may be defined.
pub const PART_SUPPORT: u8 = 0x01;
/// Partitioning support: enhanced attributes may be set.
pub const ENHNCD_SUPPORT: u8 = 0x02;
/// Partition attributes: any enhanced attribute.
pub const PART_ENH_ATTRIB: u8 = 0x1f;

/// The card after its operating conditions: relative address 1, and block
/// addressing when the conditions announce a high-capacity card.
pub open spec fn spec_after_ocr(c: EMmcCard, ocr: u32) -> EMmcCard {
    EMmcCard { rca: 1, high_capacity: ocr & OCR_HCS == OCR_HCS, ..c }
}

/// A block length field clipped to the largest block length.
pub open spec fn clip_block_len(l: u32) -> u32 {
    if l > MMC_MAX_BLOCK_LEN {
        MMC_MAX_BLOCK_LEN
    } else {
        l
    }
}

/// The card after its CSD: the version when it was unknown, the DSR flag,
/// the user capacity and the block lengths clipped to 512.
pub open spec fn spec_after_csd(c: EMmcCard, csd: [u32; 4]) -> EMmcCard {
    let g = spec_csd_geometry(csd, c.high_capacity);
    EMmcCard {
        version: if c.version == MMC_VERSION_UNKNOWN {
            spec_csd_mmc_version(c.csd[0])
        } else {
            c.version
        },
        dsr_imp: g.dsr_imp,
        capacity_user: g.capacity_user,
        read_bl_len: clip_block_len(g.read_bl_len),
        write_bl_len: clip_block_len(g.write_bl_len),
        ..c
    }
}

/// The argument of the set-DSR command, when the card implements the DSR
/// and a DSR value is configured.
pub open spec fn spec_dsr_command(c: EMmcCard) -> Option<u32> {
    if c.dsr_imp != 0 && c.dsr != 0xffff_ffff {
        Some((c.dsr & 0xffff) << 16u32)
    } else {
        None
    }
}

/// The size fields of an extended CSD.
pub open spec fn spec_size_fields(e: Seq<u8>) -> ExtCsdSizeFields {
    ExtCsdSizeFields {
        sec_cnt: [e[212], e[213], e[214], e[215]],
        boot_mult: e[226],
        rpmb_mult: e[168],
        gp_size_mult: [
            e[143],
            e[144],
            e[145],
            e[146],
            e[147],
            e[148],
            e[149],
            e[150],
            e[151],
            e[152],
            e[153],
            e[154],
        ],
        enh_size_mult: [e[140], e[141], e[142]],
        enh_start_addr: [e[136], e[137], e[138], e[139]],
        hc_erase_grp_size: e[224],
        hc_wp_grp_size: e[221],
    }
}

/// The partitioning of the extended CSD is completed.
pub open spec fn part_completed(e: Seq<u8>) -> bool {
    e[155] & EXT_CSD_PARTITION_SETTING_COMPLETED != 0
}

/// An extended CSD the host can take: long enough, and a revision of 2 or
/// more that it knows.
pub open spec fn ext_csd_usable(e: Seq<u8>) -> bool {
    &&& e.len() == EXT_CSD_LEN
    &&& e[192] >= 2 ==> known_ext_csd_rev(e[192])
}

/// The card after its extended CSD, before the erase groups are settled:
/// from revision 2 on the version, and the sector-count capacity when it
/// exceeds 2 GiB; the partitioning support; the partition configuration
/// when partitions or boot partitions exist; the partition attributes when
/// partitioning is completed with enhanced support; the boot and RPMB
/// sizes; and, when partitioning is completed, the general-purpose sizes
/// and the enhanced user area.
pub open spec fn spec_after_ext_csd(c: EMmcCard, e: Seq<u8>) -> EMmcCard {
    let sizes = spec_ext_csd_sizes(spec_size_fields(e), c.high_capacity);
    let capacity = sizes.sectors * 512;
    let completed = part_completed(e);
    let c1 = if e[192] >= 2 {
        EMmcCard {
            capacity_user: if capacity / 0x10_0000 > 2048 {
                capacity as u64
            } else {
                c.capacity_user
            },
            version: spec_ext_csd_mmc_version(e[192]),
            ..c
        }
    } else {
        c
    };
    EMmcCard {
        part_support: e[160],
        part_config: if e[160] & PART_SUPPORT != 0 || e[226] != 0 {
            e[179]
        } else {
            c1.part_config
        },
        part_attr: if completed && e[160] & ENHNCD_SUPPORT != 0 {
            e[156]
        } else {
            c1.part_attr
        },
        capacity_boot: sizes.capacity_boot,
        capacity_rpmb: sizes.capacity_rpmb,
        capacity_gp: if completed {
            sizes.capacity_gp
        } else {
            c1.capacity_gp
        },
        enh_user_size: if completed {
            sizes.enh_user_size
        } else {
            c1.enh_user_size
        },
        enh_user_start: if completed {
            sizes.enh_user_start
        } else {
            c1.enh_user_start
        },
        ..c1
    }
}

/// The erase group definition must be switched on: some general-purpose
/// partition is sized, the partitioning is completed, or partitions with
/// enhanced attributes are supported and set.
pub open spec fn spec_needs_erase_group_def(c: EMmcCard, e: Seq<u8>) -> bool {
    spec_ext_csd_sizes(spec_size_fields(e), c.high_capacity).gp_defined || part_completed(e) || (e[160]
        & PART_SUPPORT != 0 && e[156] & PART_ENH_ATTRIB != 0)
}

/// The card after the erase groups are settled: with the high-capacity
/// erase groups in use, their size and, for a completed block-addressed
/// card, the sector-count capacity; otherwise the CSD's erase groups. Then
/// the write-protect group size, the reliable write setting and the driver
/// strength.
pub open spec fn spec_after_erase_groups(c: EMmcCard, e: Seq<u8>, erase_group_def: bool, csd2: u32) -> EMmcCard {
    let sizes = spec_ext_csd_sizes(spec_size_fields(e), c.high_capacity);
    let c1 = if erase_group_def {
        EMmcCard {
            erase_grp_size: sizes.hc_erase_grp_size,
            capacity_user: if c.high_capacity && part_completed(e) {
                (sizes.sectors * 512) as u64
            } else {
                c.capacity_user
            },
            ..c
        }
    } else {
        EMmcCard {
            erase_grp_size: spec_csd_geometry([0, 0, csd2, 0], c.high_capacity).erase_grp_size,
            ..c
        }
    };
    EMmcCard {
        hc_wp_grp_size: sizes.hc_wp_grp_size,
        wr_rel_set: e[167],
        raw_driver_strength: e[197],
        ..c1
    }
}

/// What the card learns on the way up: the operating conditions give it
/// relative address 1 and block addressing exactly when their bit 30 (card
/// capacity status) is set; the CSD gives the DSR flag (bit 12 of word 1)
/// and the read and write block lengths (bits 19:16 of word 1 and 25:22 of
/// word 3), clipped to 512, and keeps a known version; the set-DSR command
/// is sent exactly when the card implements the DSR and one is configured
/// (not all ones), with the low half of the DSR in the argument's high half.
pub proof fn law_card_identification(c: EMmcCard, ocr: u32, csd: [u32; 4])
    ensures
        spec_after_ocr(c, ocr).rca == 1,
        spec_after_ocr(c, ocr).high_capacity <==> ocr & 0x4000_0000 == 0x4000_0000,
        spec_after_ocr(c, ocr) == (EMmcCard { rca: 1, high_capacity: spec_after_ocr(c, ocr).high_capacity, ..c }),
        spec_after_csd(c, csd).dsr_imp == (csd[1] >> 12u32) & 0x1,
        spec_after_csd(c, csd).read_bl_len == (if (csd[1] >> 16u32) & 0xf > 512 {
            512
        } else {
            (csd[1] >> 16u32) & 0xf
        }),
        spec_after_csd(c, csd).write_bl_len == (if (csd[3] >> 22u32) & 0xf > 512 {
            512
        } else {
            (csd[3] >> 22u32) & 0xf
        }),
        c.version != 0x4000_0000 ==> spec_after_csd(c, csd).version == c.version,
        spec_dsr_command(c) is Some <==> (c.dsr_imp != 0 && c.dsr != 0xffff_ffff),
        spec_dsr_command(c) matches Some(arg) ==> arg == (c.dsr & 0xffff) << 16u32,
{
}

/// The erase groups a card settles on: with the high-capacity definition in
/// use, 1024 sectors per unit of EXT_CSD byte 224, and on a block-addressed
/// card with completed partitioning the user capacity becomes the sector
/// count (bytes 212 to 215, lowest first) times 512; without it, the CSD's
/// (group size + 1) x (group multiplier + 1), from bits 14:10 and 9:5 of
/// its third word. The write-protect group is 1024 x byte 224 x byte 221.
pub proof fn law_erase_groups(c: EMmcCard, e: Seq<u8>, def: bool, csd2: u32)
    requires
        e.len() == EXT_CSD_LEN,
    ensures
        def ==> spec_after_erase_groups(c, e, def, csd2).erase_grp_size == e[224] * 1024,
        def && c.high_capacity && e[155] & 0x01 != 0 ==> spec_after_erase_groups(c, e, def, csd2).capacity_user
            == (e[212] + 0x100 * e[213] + 0x1_0000 * e[214] + 0x100_0000 * e[215]) * 512,
        !def ==> spec_after_erase_groups(c, e, def, csd2).erase_grp_size == ((((csd2 & 0x7c00) >> 10u32)
            + 1) * (((csd2 & 0x3e0) >> 5u32) + 1)) as u32,
        spec_after_erase_groups(c, e, def, csd2).hc_wp_grp_size == 1024 * e[224] * e[221],
        spec_after_erase_groups(c, e, def, csd2).wr_rel_set == e[167],
        spec_after_erase_groups(c, e, def, csd2).raw_driver_strength == e[197],
{
    let f = spec_size_fields(e);
    crate::emmc::partition::law_ext_csd_size_units(f, c.high_capacity, 0);
    let sectors = e[212] + 0x100 * e[213] + 0x1_0000 * e[214] + 0x100_0000 * e[215];
    assert(0 <= sectors * 512 <= u64::MAX) by (nonlinear_arith)
        requires
            0 <= sectors < 0x1_0000_0000,
    ;
}

impl EMmcCard {
    /// Take the operating conditions: relative address 1 and the addressing
    /// mode they announce.
    pub fn apply_ocr(&mut self, ocr: u32)
        ensures
            *final(self) == spec_after_ocr(*old(self), ocr),
    {
        self.rca = 1;
        self.high_capacity = (ocr & OCR_HCS) == OCR_HCS;
    }

    /// Take the CSD; returns the argument of the set-DSR command when one
    /// must be sent.
    pub fn apply_csd(&mut self, csd: &[u32; 4]) -> (dsr: Option<u32>)
        ensures
            *final(self) == spec_after_csd(*old(self), *csd),
            dsr == spec_dsr_command(*final(self)),
    {
        self.adopt_csd_version();
        let g = decode_csd_geometry(csd, self.high_capacity);
        self.dsr_imp = g.dsr_imp;
        self.capacity_user = g.capacity_user;
        let mut read_bl_len = g.read_bl_len;
        let mut write_bl_len = g.write_bl_len;
        if write_bl_len > MMC_MAX_BLOCK_LEN {
            write_bl_len = MMC_MAX_BLOCK_LEN;
        }
        if read_bl_len > MMC_MAX_BLOCK_LEN {
            read_bl_len = MMC_MAX_BLOCK_LEN;
        }
        self.read_bl_len = read_bl_len;
        self.write_bl_len = write_bl_len;
        if self.dsr_imp != 0 && self.dsr != 0xffff_ffff {
            Some((self.dsr & 0xffff) << 16u32)
        } else {
            None
        }
    }

    /// After the card is selected: erase groups of one block and no
    /// partition configuration yet.
    pub fn apply_selected(&mut self)
        ensures
            *final(self) == (EMmcCard { erase_grp_size: 1, part_config: MMCPART_NOAVAILABLE, ..*old(self) }),
    {
        self.erase_grp_size = 1;
        self.part_config = MMCPART_NOAVAILABLE;
    }

    /// Whether the card has an extended CSD to read and a high-speed mode to
    /// switch to: version 4 and later.
    pub fn uses_ext_csd(&self) -> (b: bool)
        ensures
            b == (self.version >= MMC_VERSION_4),
    {
        self.version >= MMC_VERSION_4
    }

    /// Take the extended CSD; returns whether the erase group definition
    /// must be switched on.
    pub fn apply_ext_csd(&mut self, ext_csd: &[u8]) -> (needs_erase_group_def: bool)
        requires
            ext_csd_usable(ext_csd@),
        ensures
            *final(self) == spec_after_ext_csd(*old(self), ext_csd@),
            needs_erase_group_def == spec_needs_erase_group_def(*old(self), ext_csd@),
    {
        let e = ext_csd;
        let fields = size_fields(e);
        let sizes = decode_ext_csd_sizes(&fields, self.high_capacity);
        let rev = e[EXT_CSD_REV];
        if rev >= 2 {
            assert(sizes.sectors < 0x1_0000_0000);
            let capacity = sizes.sectors * 512u64;
            if (capacity >> 20u64) > 2 * 1024 {
                self.capacity_user = capacity;
            }
            assert((capacity >> 20u64) == capacity / 0x10_0000) by (bit_vector);
            self.version = mmc_version_of_ext_csd_rev(rev);
        }
        let completed = (e[EXT_CSD_PARTITION_SETTING] & EXT_CSD_PARTITION_SETTING_COMPLETED) != 0;
        let support = e[EXT_CSD_PARTITIONING_SUPPORT];
        self.part_support = support;
        if (support & PART_SUPPORT) != 0 || e[EXT_CSD_BOOT_MULT] != 0 {
            self.part_config = e[EXT_CSD_PART_CONF];
        }
        if completed && (support & ENHNCD_SUPPORT) != 0 {
            self.part_attr = e[EXT_CSD_PARTITIONS_ATTRIBUTE];
        }
        self.capacity_boot = sizes.capacity_boot;
        self.capacity_rpmb = sizes.capacity_rpmb;
        if completed {
            self.capacity_gp = sizes.capacity_gp;
            self.enh_user_size = sizes.enh_user_size;
            self.enh_user_start = sizes.enh_user_start;
        }
        sizes.gp_defined || completed || ((support & PART_SUPPORT) != 0 && (e[EXT_CSD_PARTITIONS_ATTRIBUTE]
            & PART_ENH_ATTRIB) != 0)
    }

    /// Settle the erase groups once the extended CSD was taken:
    /// `erase_group_def` tells whether the high-capacity erase groups are in
    /// use (the extended CSD's definition bit, or a successful switch).
    pub fn apply_erase_groups(&mut self, ext_csd: &[u8], erase_group_def: bool, csd2: u32)
        requires
            ext_csd@.len() == EXT_CSD_LEN,
        ensures
            *final(self) == spec_after_erase_groups(*old(self), ext_csd@, erase_group_def, csd2),
    {
        let e = ext_csd;
        let fields = size_fields(e);
        let sizes = decode_ext_csd_sizes(&fields, self.high_capacity);
        if erase_group_def {
            self.erase_grp_size = sizes.hc_erase_grp_size;
            let completed = (e[EXT_CSD_PARTITION_SETTING] & EXT_CSD_PARTITION_SETTING_COMPLETED) != 0;
            if self.high_capacity && completed {
                assert(sizes.sectors < 0x1_0000_0000);
                self.capacity_user = sizes.sectors * 512u64;
            }
        } else {
            let g = decode_csd_geometry(&[0, 0, csd2, 0], self.high_capacity);
            self.erase_grp_size = g.erase_grp_size;
        }
        self.hc_wp_grp_size = sizes.hc_wp_grp_size;
        self.wr_rel_set = e[EXT_CSD_WR_REL_SET];
        self.raw_driver_strength = e[EXT_CSD_DRIVER_STRENGTH];
    }
}

/// The size fields of an extended CSD.
fn size_fields(e: &[u8]) -> (f: ExtCsdSizeFields)
    requires
        e@.len() == EXT_CSD_LEN,
    ensures
        f == spec_size_fields(e@),
{
    ExtCsdSizeFields {
        sec_cnt: [e[212], e[213], e[214], e[215]],
        boot_mult: e[226],
        rpmb_mult: e[168],
        gp_size_mult: [e[143], e[144], e[145], e[146], e[147], e[148], e[149], e[150], e[151], e[152], e[153], e[154]],
        enh_size_mult: [e[140], e[141], e[142]],
        enh_start_addr: [e[136], e[137], e[138], e[139]],
        hc_erase_grp_size: e[224],
        hc_wp_grp_size: e[221],
    }
}

} // verus!
