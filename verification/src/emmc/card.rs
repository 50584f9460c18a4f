//! The card attached to the eMMC host and its bookkeeping.
use vstd::prelude::*;
use crate::emmc::aux::MMC_VERSION_UNKNOWN;

verus! {

/// Legacy (default-speed) bus timing.
pub const MMC_TIMING_LEGACY: u32 = 0;

/// Kind of card on the bus.
#[derive(Debug, Clone, Copy, PartialEq, Eq, Structural)]
pub enum CardType {
    Unknown,
    Mmc,
    SdV1,
    SdV2,
    SdHc,
    MmcHc,
}

/// State of the card attached to the host.
#[derive(Debug, Clone, Copy)]
pub struct EMmcCard {
    /// Kind of card.
    pub card_type: CardType,
    /// Relative card address.
    pub rca: u32,
    /// Operating conditions register.
    pub ocr: u32,
    /// Card identification register.
    pub cid: [u32; 4],
    /// Card-specific data register.
    pub csd: [u32; 4],
    /// Last reported card state.
    pub state: u32,
    /// Block size in bytes.
    pub block_size: u32,
    /// Capacity in 512-byte blocks.
    pub capacity_blocks: u64,
    /// Whether the card finished initialization.
    pub initialized: bool,
    /// Whether the card is block-addressed.
    pub high_capacity: bool,
    /// MMC or SD version number.
    pub version: u32,
    /// Driver stage register value.
    pub dsr: u32,
    /// Bus timing mode.
    pub timing: u32,
    /// Bus clock in Hz.
    pub clock: u32,
    /// Data bus width.
    pub bus_width: u8,
    /// Partitioning support bits.
    pub part_support: u8,
    /// Partition attributes.
    pub part_attr: u8,
    /// Reliable write settings.
    pub wr_rel_set: u8,
    /// Partition configuration.
    pub part_config: u8,
    /// Whether the DSR is implemented.
    pub dsr_imp: u32,
    /// Card capability bits.
    pub card_caps: u32,
    /// Read block length exponent.
    pub read_bl_len: u32,
    /// Write block length exponent.
    pub write_bl_len: u32,
    /// Erase group size.
    pub erase_grp_size: u32,
    /// High-capacity write-protect group size.
    pub hc_wp_grp_size: u64,
    /// Capacity in bytes of the selected partition.
    pub capacity: u64,
    /// Capacity in bytes of the user area.
    pub capacity_user: u64,
    /// Capacity in bytes of a boot partition.
    pub capacity_boot: u64,
    /// Capacity in bytes of the RPMB partition.
    pub capacity_rpmb: u64,
    /// Capacities in bytes of the general-purpose partitions.
    pub capacity_gp: [u64; 4],
    /// Size of the enhanced user area.
    pub enh_user_size: u64,
    /// Start of the enhanced user area.
    pub enh_user_start: u64,
    /// Raw driver strength byte of the extended CSD.
    pub raw_driver_strength: u8,
    /// Extended CSD revision.
    pub ext_csd_rev: u8,
    /// Sector count reported by the extended CSD.
    pub ext_csd_sectors: u64,
    /// Maximum high-speed transfer rate.
    pub hs_max_dtr: u32,
}

impl EMmcCard {
    /// A card of `card_type` not yet probed: everything zero except the
    /// unknown MMC version, the default DSR `0xffffffff` and legacy timing.
    pub fn init(card_type: CardType) -> (c: EMmcCard)
        ensures
            c.card_type == card_type,
            c.rca == 0,
            c.ocr == 0,
            c.cid == [0u32, 0u32, 0u32, 0u32],
            c.csd == [0u32, 0u32, 0u32, 0u32],
            c.state == 0,
            c.block_size == 0,
            c.capacity_blocks == 0,
            c.initialized == false,
            c.high_capacity == false,
            c.version == MMC_VERSION_UNKNOWN,
            c.dsr == 0xffff_ffff,
            c.timing == MMC_TIMING_LEGACY,
            c.clock == 0,
            c.bus_width == 0,
            c.part_support == 0,
            c.part_attr == 0,
            c.wr_rel_set == 0,
            c.part_config == 0,
            c.dsr_imp == 0,
            c.card_caps == 0,
            c.read_bl_len == 0,
            c.write_bl_len == 0,
            c.erase_grp_size == 0,
            c.hc_wp_grp_size == 0,
            c.capacity == 0,
            c.capacity_user == 0,
            c.capacity_boot == 0,
            c.capacity_rpmb == 0,
            c.capacity_gp == [0u64, 0u64, 0u64, 0u64],
            c.enh_user_size == 0,
            c.enh_user_start == 0,
            c.raw_driver_strength == 0,
            c.ext_csd_rev == 0,
            c.ext_csd_sectors == 0,
            c.hs_max_dtr == 0,
    {
        EMmcCard {
            card_type: card_type,
            rca: 0,
            ocr: 0,
            cid: [0, 0, 0, 0],
            csd: [0, 0, 0, 0],
            state: 0,
            block_size: 0,
            capacity_blocks: 0,
            initialized: false,
            high_capacity: false,
            version: MMC_VERSION_UNKNOWN,
            dsr: 0xffff_ffff,
            timing: MMC_TIMING_LEGACY,
            clock: 0,
            bus_width: 0,
            part_support: 0,
            part_attr: 0,
            wr_rel_set: 0,
            part_config: 0,
            dsr_imp: 0,
            card_caps: 0,
            read_bl_len: 0,
            write_bl_len: 0,
            erase_grp_size: 0,
            hc_wp_grp_size: 0,
            capacity: 0,
            capacity_user: 0,
            capacity_boot: 0,
            capacity_rpmb: 0,
            capacity_gp: [0, 0, 0, 0],
            enh_user_size: 0,
            enh_user_start: 0,
            raw_driver_strength: 0,
            ext_csd_rev: 0,
            ext_csd_sectors: 0,
            hs_max_dtr: 0,
        }
    }

    /// Kind of card.
    pub fn card_type(&self) -> (v: CardType)
        ensures
            v == self.card_type,
    {
        self.card_type
    }

    /// Set the kind of card.
    pub fn set_card_type(&mut self, value: CardType)
        ensures
            *final(self) == (EMmcCard { card_type: value, ..*old(self) }),
    {
        self.card_type = value;
    }

    /// Relative card address.
    pub fn rca(&self) -> (v: u32)
        ensures
            v == self.rca,
    {
        self.rca
    }

    /// Set the relative card address.
    pub fn set_rca(&mut self, value: u32)
        ensures
            *final(self) == (EMmcCard { rca: value, ..*old(self) }),
    {
        self.rca = value;
    }

    /// Operating conditions register.
    pub fn ocr(&self) -> (v: u32)
        ensures
            v == self.ocr,
    {
        self.ocr
    }

    /// Set the operating conditions register.
    pub fn set_ocr(&mut self, value: u32)
        ensures
            *final(self) == (EMmcCard { ocr: value, ..*old(self) }),
    {
        self.ocr = value;
    }

    /// Last reported card state.
    pub fn state(&self) -> (v: u32)
        ensures
            v == self.state,
    {
        self.state
    }

    /// Set the last reported card state.
    pub fn set_state(&mut self, value: u32)
        ensures
            *final(self) == (EMmcCard { state: value, ..*old(self) }),
    {
        self.state = value;
    }

    /// Block size in bytes.
    pub fn block_size(&self) -> (v: u32)
        ensures
            v == self.block_size,
    {
        self.block_size
    }

    /// Set the block size in bytes.
    pub fn set_block_size(&mut self, value: u32)
        ensures
            *final(self) == (EMmcCard { block_size: value, ..*old(self) }),
    {
        self.block_size = value;
    }

    /// Capacity in 512-byte blocks.
    pub fn capacity_blocks(&self) -> (v: u64)
        ensures
            v == self.capacity_blocks,
    {
        self.capacity_blocks
    }

    /// Set the capacity in 512-byte blocks.
    pub fn set_capacity_blocks(&mut self, value: u64)
        ensures
            *final(self) == (EMmcCard { capacity_blocks: value, ..*old(self) }),
    {
        self.capacity_blocks = value;
    }

    /// Whether the card is block-addressed.
    pub fn high_capacity(&self) -> (v: bool)
        ensures
            v == self.high_capacity,
    {
        self.high_capacity
    }

    /// Record whether the card is block-addressed.
    pub fn set_high_capacity(&mut self, value: bool)
        ensures
            *final(self) == (EMmcCard { high_capacity: value, ..*old(self) }),
    {
        self.high_capacity = value;
    }

    /// MMC or SD version number.
    pub fn version(&self) -> (v: u32)
        ensures
            v == self.version,
    {
        self.version
    }

    /// Set the MMC or SD version number.
    pub fn set_version(&mut self, value: u32)
        ensures
            *final(self) == (EMmcCard { version: value, ..*old(self) }),
    {
        self.version = value;
    }

    /// Driver stage register value.
    pub fn dsr(&self) -> (v: u32)
        ensures
            v == self.dsr,
    {
        self.dsr
    }

    /// Set the driver stage register value.
    pub fn set_dsr(&mut self, value: u32)
        ensures
            *final(self) == (EMmcCard { dsr: value, ..*old(self) }),
    {
        self.dsr = value;
    }

    /// Bus timing mode.
    pub fn timing(&self) -> (v: u32)
        ensures
            v == self.timing,
    {
        self.timing
    }

    /// Set the bus timing mode.
    pub fn set_timing(&mut self, value: u32)
        ensures
            *final(self) == (EMmcCard { timing: value, ..*old(self) }),
    {
        self.timing = value;
    }

    /// Data bus width.
    pub fn bus_width(&self) -> (v: u8)
        ensures
            v == self.bus_width,
    {
        self.bus_width
    }

    /// Set the data bus width.
    pub fn set_bus_width(&mut self, value: u8)
        ensures
            *final(self) == (EMmcCard { bus_width: value, ..*old(self) }),
    {
        self.bus_width = value;
    }

    /// Partitioning support bits.
    pub fn part_support(&self) -> (v: u8)
        ensures
            v == self.part_support,
    {
        self.part_support
    }

    /// Set the partitioning support bits.
    pub fn set_part_support(&mut self, value: u8)
        ensures
            *final(self) == (EMmcCard { part_support: value, ..*old(self) }),
    {
        self.part_support = value;
    }

    /// Partition attributes.
    pub fn part_attr(&self) -> (v: u8)
        ensures
            v == self.part_attr,
    {
        self.part_attr
    }

    /// Set the partition attributes.
    pub fn set_part_attr(&mut self, value: u8)
        ensures
            *final(self) == (EMmcCard { part_attr: value, ..*old(self) }),
    {
        self.part_attr = value;
    }

    /// Reliable write settings.
    pub fn wr_rel_set(&self) -> (v: u8)
        ensures
            v == self.wr_rel_set,
    {
        self.wr_rel_set
    }

    /// Set the reliable write settings.
    pub fn set_wr_rel_set(&mut self, value: u8)
        ensures
            *final(self) == (EMmcCard { wr_rel_set: value, ..*old(self) }),
    {
        self.wr_rel_set = value;
    }

    /// Partition configuration.
    pub fn part_config(&self) -> (v: u8)
        ensures
            v == self.part_config,
    {
        self.part_config
    }

    /// Set the partition configuration.
    pub fn set_part_config(&mut self, value: u8)
        ensures
            *final(self) == (EMmcCard { part_config: value, ..*old(self) }),
    {
        self.part_config = value;
    }

    /// Whether the DSR is implemented.
    pub fn dsr_imp(&self) -> (v: u32)
        ensures
            v == self.dsr_imp,
    {
        self.dsr_imp
    }

    /// Record whether the DSR is implemented.
    pub fn set_dsr_imp(&mut self, value: u32)
        ensures
            *final(self) == (EMmcCard { dsr_imp: value, ..*old(self) }),
    {
        self.dsr_imp = value;
    }

    /// Card capability bits.
    pub fn card_caps(&self) -> (v: u32)
        ensures
            v == self.card_caps,
    {
        self.card_caps
    }

    /// Set the card capability bits.
    pub fn set_card_caps(&mut self, value: u32)
        ensures
            *final(self) == (EMmcCard { card_caps: value, ..*old(self) }),
    {
        self.card_caps = value;
    }

    /// Read block length exponent.
    pub fn read_bl_len(&self) -> (v: u32)
        ensures
            v == self.read_bl_len,
    {
        self.read_bl_len
    }

    /// Set the read block length exponent.
    pub fn set_read_bl_len(&mut self, value: u32)
        ensures
            *final(self) == (EMmcCard { read_bl_len: value, ..*old(self) }),
    {
        self.read_bl_len = value;
    }

    /// Write block length exponent.
    pub fn write_bl_len(&self) -> (v: u32)
        ensures
            v == self.write_bl_len,
    {
        self.write_bl_len
    }

    /// Set the write block length exponent.
    pub fn set_write_bl_len(&mut self, value: u32)
        ensures
            *final(self) == (EMmcCard { write_bl_len: value, ..*old(self) }),
    {
        self.write_bl_len = value;
    }

    /// Erase group size.
    pub fn erase_grp_size(&self) -> (v: u32)
        ensures
            v == self.erase_grp_size,
    {
        self.erase_grp_size
    }

    /// Set the erase group size.
    pub fn set_erase_grp_size(&mut self, value: u32)
        ensures
            *final(self) == (EMmcCard { erase_grp_size: value, ..*old(self) }),
    {
        self.erase_grp_size = value;
    }

    /// High-capacity write-protect group size.
    pub fn hc_wp_grp_size(&self) -> (v: u64)
        ensures
            v == self.hc_wp_grp_size,
    {
        self.hc_wp_grp_size
    }

    /// Set the high-capacity write-protect group size.
    pub fn set_hc_wp_grp_size(&mut self, value: u64)
        ensures
            *final(self) == (EMmcCard { hc_wp_grp_size: value, ..*old(self) }),
    {
        self.hc_wp_grp_size = value;
    }

    /// Capacity in bytes of the selected partition.
    pub fn capacity(&self) -> (v: u64)
        ensures
            v == self.capacity,
    {
        self.capacity
    }

    /// Set the capacity in bytes of the selected partition.
    pub fn set_capacity(&mut self, value: u64)
        ensures
            *final(self) == (EMmcCard { capacity: value, ..*old(self) }),
    {
        self.capacity = value;
    }

    /// Capacity in bytes of the user area.
    pub fn capacity_user(&self) -> (v: u64)
        ensures
            v == self.capacity_user,
    {
        self.capacity_user
    }

    /// Set the capacity in bytes of the user area.
    pub fn set_capacity_user(&mut self, value: u64)
        ensures
            *final(self) == (EMmcCard { capacity_user: value, ..*old(self) }),
    {
        self.capacity_user = value;
    }

    /// Capacity in bytes of a boot partition.
    pub fn capacity_boot(&self) -> (v: u64)
        ensures
            v == self.capacity_boot,
    {
        self.capacity_boot
    }

    /// Set the capacity in bytes of a boot partition.
    pub fn set_capacity_boot(&mut self, value: u64)
        ensures
            *final(self) == (EMmcCard { capacity_boot: value, ..*old(self) }),
    {
        self.capacity_boot = value;
    }

    /// Capacity in bytes of the RPMB partition.
    pub fn capacity_rpmb(&self) -> (v: u64)
        ensures
            v == self.capacity_rpmb,
    {
        self.capacity_rpmb
    }

    /// Set the capacity in bytes of the RPMB partition.
    pub fn set_capacity_rpmb(&mut self, value: u64)
        ensures
            *final(self) == (EMmcCard { capacity_rpmb: value, ..*old(self) }),
    {
        self.capacity_rpmb = value;
    }

    /// Extended CSD revision.
    pub fn ext_csd_rev(&self) -> (v: u8)
        ensures
            v == self.ext_csd_rev,
    {
        self.ext_csd_rev
    }

    /// Set the extended CSD revision.
    pub fn set_ext_csd_rev(&mut self, value: u8)
        ensures
            *final(self) == (EMmcCard { ext_csd_rev: value, ..*old(self) }),
    {
        self.ext_csd_rev = value;
    }

    /// Sector count reported by the extended CSD.
    pub fn ext_csd_sectors(&self) -> (v: u64)
        ensures
            v == self.ext_csd_sectors,
    {
        self.ext_csd_sectors
    }

    /// Set the sector count reported by the extended CSD.
    pub fn set_ext_csd_sectors(&mut self, value: u64)
        ensures
            *final(self) == (EMmcCard { ext_csd_sectors: value, ..*old(self) }),
    {
        self.ext_csd_sectors = value;
    }

    /// Maximum high-speed transfer rate.
    pub fn hs_max_dtr(&self) -> (v: u32)
        ensures
            v == self.hs_max_dtr,
    {
        self.hs_max_dtr
    }

    /// Set the maximum high-speed transfer rate.
    pub fn set_hs_max_dtr(&mut self, value: u32)
        ensures
            *final(self) == (EMmcCard { hs_max_dtr: value, ..*old(self) }),
    {
        self.hs_max_dtr = value;
    }

    /// Raw driver strength byte of the extended CSD.
    pub fn raw_driver_strength(&self) -> (v: u8)
        ensures
            v == self.raw_driver_strength,
    {
        self.raw_driver_strength
    }

    /// Set the raw driver strength byte of the extended CSD.
    pub fn set_raw_driver_strength(&mut self, value: u8)
        ensures
            *final(self) == (EMmcCard { raw_driver_strength: value, ..*old(self) }),
    {
        self.raw_driver_strength = value;
    }

    /// Card identification register.
    pub fn cid(&self) -> (v: [u32; 4])
        ensures
            v == self.cid,
    {
        self.cid
    }

    /// Set the card identification register.
    pub fn set_cid(&mut self, value: [u32; 4])
        ensures
            *final(self) == (EMmcCard { cid: value, ..*old(self) }),
    {
        self.cid = value;
    }

    /// Card-specific data register.
    pub fn csd(&self) -> (v: [u32; 4])
        ensures
            v == self.csd,
    {
        self.csd
    }

    /// Set the card-specific data register.
    pub fn set_csd(&mut self, value: [u32; 4])
        ensures
            *final(self) == (EMmcCard { csd: value, ..*old(self) }),
    {
        self.csd = value;
    }

    /// Capacities in bytes of the general-purpose partitions.
    pub fn capacity_gp(&self) -> (v: [u64; 4])
        ensures
            v == self.capacity_gp,
    {
        self.capacity_gp
    }

    /// Set the capacities in bytes of the general-purpose partitions.
    pub fn set_capacity_gp(&mut self, value: [u64; 4])
        ensures
            *final(self) == (EMmcCard { capacity_gp: value, ..*old(self) }),
    {
        self.capacity_gp = value;
    }

    /// Whether the card finished initialization.
    pub fn initialized(&self) -> (v: bool)
        ensures
            v == self.initialized,
    {
        self.initialized
    }

    /// Record whether the card finished initialization.
    pub fn set_initialized(&mut self, value: bool)
        ensures
            *final(self) == (EMmcCard { initialized: value, ..*old(self) }),
    {
        self.initialized = value;
    }

    /// Size of the enhanced user area.
    pub fn enh_user_size(&self) -> (v: u64)
        ensures
            v == self.enh_user_size,
    {
        self.enh_user_size
    }

    /// Set the size of the enhanced user area.
    pub fn set_enh_user_size(&mut self, value: u64)
        ensures
            *final(self) == (EMmcCard { enh_user_size: value, ..*old(self) }),
    {
        self.enh_user_size = value;
    }

    /// Start of the enhanced user area.
    pub fn enh_user_start(&self) -> (v: u64)
        ensures
            v == self.enh_user_start,
    {
        self.enh_user_start
    }

    /// Set the start of the enhanced user area.
    pub fn set_enh_user_start(&mut self, value: u64)
        ensures
            *final(self) == (EMmcCard { enh_user_start: value, ..*old(self) }),
    {
        self.enh_user_start = value;
    }

}

} // verus!
