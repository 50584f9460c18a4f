//! The eMMC host controller's view of its card.
use vstd::prelude::*;
use crate::emmc::card::{EMmcCard, CardType};
use crate::emmc::err::SdError;

verus! {

/// The eMMC host controller: its register base, capabilities and the card
/// attached to it.
#[derive(Debug, Clone, Copy)]
pub struct EMmcHost {
    /// MMIO base address of the controller.
    pub base_addr: usize,
    /// The attached card, if any.
    pub card: Option<EMmcCard>,
    /// Capabilities register.
    pub caps: u32,
    /// Base clock in Hz.
    pub clock_base: u32,
    /// Supported voltages.
    pub voltages: u32,
    /// Controller quirks.
    pub quirks: u32,
    /// Host capability bits.
    pub host_caps: u32,
    /// Controller version.
    pub version: u16,
}

/// Summary of the attached card.
#[derive(Debug, Clone, Copy)]
pub struct CardInfo {
    pub card_type: CardType,
    pub manufacturer_id: u8,
    pub application_id: u16,
    pub serial_number: u32,
    pub manufacturing_month: u8,
    pub manufacturing_year: u16,
    pub capacity_bytes: u64,
    pub block_size: u32,
}

/// Base clock in Hz encoded in a capabilities register (bits 15:8, in MHz).
pub open spec fn spec_clock_base(caps: u32) -> u32 {
    (((caps >> 8u32) & 0xff) * 1_000_000) as u32
}

/// The host with the card replaced by `card`.
pub open spec fn with_card(h: EMmcHost, card: Option<EMmcCard>) -> EMmcHost {
    EMmcHost { card, ..h }
}

impl EMmcHost {
    /// A host at `base_addr` with no card, whose capabilities register reads
    /// `caps`.
    pub fn new(base_addr: usize, caps: u32) -> (h: EMmcHost)
        ensures
            h == (EMmcHost { base_addr, card: None, caps, clock_base: spec_clock_base(caps), voltages: 0, quirks: 0, host_caps: 0, version: 0 }),
    {
        let mhz = (caps >> 8u32) & 0xff;
        assert(mhz <= 0xff) by (bit_vector)
            requires
                mhz == (caps >> 8u32) & 0xff,
        ;
        EMmcHost {
            base_addr,
            card: None,
            caps,
            clock_base: mhz * 1_000_000,
            voltages: 0,
            quirks: 0,
            host_caps: 0,
            version: 0,
        }
    }

    /// The attached card.
    pub fn card(&self) -> (c: Option<&EMmcCard>)
        ensures
            match self.card {
                Some(card) => c is Some && *c.unwrap() == card,
                None => c is None,
            },
    {
        match &self.card {
            Some(card) => Some(card),
            None => None,
        }
    }

    /// The attached card, for update in place.
    pub fn card_mut(&mut self) -> (c: Option<&mut EMmcCard>)
        ensures
            old(self).card is None ==> c is None && *final(self) == *old(self),
            old(self).card is Some ==> c is Some && *c.unwrap() == old(self).card.unwrap()
                && *final(self) == with_card(*old(self), Some(*final(c.unwrap()))),
    {
        match &mut self.card {
            Some(card) => Some(card),
            None => None,
        }
    }

    /// Attach a card.
    pub fn add_card(&mut self, card: EMmcCard)
        ensures
            *final(self) == with_card(*old(self), Some(card)),
    {
        self.card = Some(card);
    }

    /// Replace the attached card.
    pub fn set_card(&mut self, card: Option<EMmcCard>)
        ensures
            *final(self) == with_card(*old(self), card),
    {
        self.card = card;
    }

    /// Kind of card of the attached card, if any.
    pub fn card_type(&self) -> (v: Option<CardType>)
        ensures
            v == (match self.card {
                Some(c) => Some(c.card_type),
                None => None,
            }),
    {
        match &self.card {
            Some(card) => Some(card.card_type),
            None => None,
        }
    }

    /// Set kind of card of the attached card; an error when there is none.
    pub fn set_card_type(&mut self, value: CardType) -> (r: Result<(), &'static str>)
        ensures
            match old(self).card {
                Some(c) => r is Ok && *final(self) == with_card(*old(self), Some(EMmcCard { card_type: value, ..c })),
                None => r == Err::<(), &'static str>("No card present") && *final(self) == *old(self),
            },
    {
        match &mut self.card {
            Some(card) => {
                card.card_type = value;
                Ok(())
            },
            None => Err("No card present"),
        }
    }

    /// Relative card address of the attached card, if any.
    pub fn rca(&self) -> (v: Option<u32>)
        ensures
            v == (match self.card {
                Some(c) => Some(c.rca),
                None => None,
            }),
    {
        match &self.card {
            Some(card) => Some(card.rca),
            None => None,
        }
    }

    /// Set relative card address of the attached card; an error when there is none.
    pub fn set_rca(&mut self, value: u32) -> (r: Result<(), &'static str>)
        ensures
            match old(self).card {
                Some(c) => r is Ok && *final(self) == with_card(*old(self), Some(EMmcCard { rca: value, ..c })),
                None => r == Err::<(), &'static str>("No card present") && *final(self) == *old(self),
            },
    {
        match &mut self.card {
            Some(card) => {
                card.rca = value;
                Ok(())
            },
            None => Err("No card present"),
        }
    }

    /// Operating conditions register of the attached card, if any.
    pub fn ocr(&self) -> (v: Option<u32>)
        ensures
            v == (match self.card {
                Some(c) => Some(c.ocr),
                None => None,
            }),
    {
        match &self.card {
            Some(card) => Some(card.ocr),
            None => None,
        }
    }

    /// Set operating conditions register of the attached card; an error when there is none.
    pub fn set_ocr(&mut self, value: u32) -> (r: Result<(), &'static str>)
        ensures
            match old(self).card {
                Some(c) => r is Ok && *final(self) == with_card(*old(self), Some(EMmcCard { ocr: value, ..c })),
                None => r == Err::<(), &'static str>("No card present") && *final(self) == *old(self),
            },
    {
        match &mut self.card {
            Some(card) => {
                card.ocr = value;
                Ok(())
            },
            None => Err("No card present"),
        }
    }

    /// Last reported card state of the attached card, if any.
    pub fn state(&self) -> (v: Option<u32>)
        ensures
            v == (match self.card {
                Some(c) => Some(c.state),
                None => None,
            }),
    {
        match &self.card {
            Some(card) => Some(card.state),
            None => None,
        }
    }

    /// Set last reported card state of the attached card; an error when there is none.
    pub fn set_state(&mut self, value: u32) -> (r: Result<(), &'static str>)
        ensures
            match old(self).card {
                Some(c) => r is Ok && *final(self) == with_card(*old(self), Some(EMmcCard { state: value, ..c })),
                None => r == Err::<(), &'static str>("No card present") && *final(self) == *old(self),
            },
    {
        match &mut self.card {
            Some(card) => {
                card.state = value;
                Ok(())
            },
            None => Err("No card present"),
        }
    }

    /// Block size in bytes of the attached card, if any.
    pub fn block_size(&self) -> (v: Option<u32>)
        ensures
            v == (match self.card {
                Some(c) => Some(c.block_size),
                None => None,
            }),
    {
        match &self.card {
            Some(card) => Some(card.block_size),
            None => None,
        }
    }

    /// Set block size in bytes of the attached card; an error when there is none.
    pub fn set_block_size(&mut self, value: u32) -> (r: Result<(), &'static str>)
        ensures
            match old(self).card {
                Some(c) => r is Ok && *final(self) == with_card(*old(self), Some(EMmcCard { block_size: value, ..c })),
                None => r == Err::<(), &'static str>("No card present") && *final(self) == *old(self),
            },
    {
        match &mut self.card {
            Some(card) => {
                card.block_size = value;
                Ok(())
            },
            None => Err("No card present"),
        }
    }

    /// Capacity in 512-byte blocks of the attached card, if any.
    pub fn capacity_blocks(&self) -> (v: Option<u64>)
        ensures
            v == (match self.card {
                Some(c) => Some(c.capacity_blocks),
                None => None,
            }),
    {
        match &self.card {
            Some(card) => Some(card.capacity_blocks),
            None => None,
        }
    }

    /// Set capacity in 512-byte blocks of the attached card; an error when there is none.
    pub fn set_capacity_blocks(&mut self, value: u64) -> (r: Result<(), &'static str>)
        ensures
            match old(self).card {
                Some(c) => r is Ok && *final(self) == with_card(*old(self), Some(EMmcCard { capacity_blocks: value, ..c })),
                None => r == Err::<(), &'static str>("No card present") && *final(self) == *old(self),
            },
    {
        match &mut self.card {
            Some(card) => {
                card.capacity_blocks = value;
                Ok(())
            },
            None => Err("No card present"),
        }
    }

    /// Whether the attached card, if any, is block-addressed.
    pub fn high_capacity(&self) -> (v: Option<bool>)
        ensures
            v == (match self.card {
                Some(c) => Some(c.high_capacity),
                None => None,
            }),
    {
        match &self.card {
            Some(card) => Some(card.high_capacity),
            None => None,
        }
    }

    /// Record on the attached card whether it is block-addressed; an error when there is none.
    pub fn set_high_capacity(&mut self, value: bool) -> (r: Result<(), &'static str>)
        ensures
            match old(self).card {
                Some(c) => r is Ok && *final(self) == with_card(*old(self), Some(EMmcCard { high_capacity: value, ..c })),
                None => r == Err::<(), &'static str>("No card present") && *final(self) == *old(self),
            },
    {
        match &mut self.card {
            Some(card) => {
                card.high_capacity = value;
                Ok(())
            },
            None => Err("No card present"),
        }
    }

    /// MMC or SD version number of the attached card, if any.
    pub fn version(&self) -> (v: Option<u32>)
        ensures
            v == (match self.card {
                Some(c) => Some(c.version),
                None => None,
            }),
    {
        match &self.card {
            Some(card) => Some(card.version),
            None => None,
        }
    }

    /// Set MMC or SD version number of the attached card; an error when there is none.
    pub fn set_version(&mut self, value: u32) -> (r: Result<(), &'static str>)
        ensures
            match old(self).card {
                Some(c) => r is Ok && *final(self) == with_card(*old(self), Some(EMmcCard { version: value, ..c })),
                None => r == Err::<(), &'static str>("No card present") && *final(self) == *old(self),
            },
    {
        match &mut self.card {
            Some(card) => {
                card.version = value;
                Ok(())
            },
            None => Err("No card present"),
        }
    }

    /// Driver stage register value of the attached card, if any.
    pub fn dsr(&self) -> (v: Option<u32>)
        ensures
            v == (match self.card {
                Some(c) => Some(c.dsr),
                None => None,
            }),
    {
        match &self.card {
            Some(card) => Some(card.dsr),
            None => None,
        }
    }

    /// Set driver stage register value of the attached card; an error when there is none.
    pub fn set_dsr(&mut self, value: u32) -> (r: Result<(), &'static str>)
        ensures
            match old(self).card {
                Some(c) => r is Ok && *final(self) == with_card(*old(self), Some(EMmcCard { dsr: value, ..c })),
                None => r == Err::<(), &'static str>("No card present") && *final(self) == *old(self),
            },
    {
        match &mut self.card {
            Some(card) => {
                card.dsr = value;
                Ok(())
            },
            None => Err("No card present"),
        }
    }

    /// Bus timing mode of the attached card, if any.
    pub fn timing(&self) -> (v: Option<u32>)
        ensures
            v == (match self.card {
                Some(c) => Some(c.timing),
                None => None,
            }),
    {
        match &self.card {
            Some(card) => Some(card.timing),
            None => None,
        }
    }

    /// Set bus timing mode of the attached card; an error when there is none.
    pub fn set_timing(&mut self, value: u32) -> (r: Result<(), &'static str>)
        ensures
            match old(self).card {
                Some(c) => r is Ok && *final(self) == with_card(*old(self), Some(EMmcCard { timing: value, ..c })),
                None => r == Err::<(), &'static str>("No card present") && *final(self) == *old(self),
            },
    {
        match &mut self.card {
            Some(card) => {
                card.timing = value;
                Ok(())
            },
            None => Err("No card present"),
        }
    }

    /// Data bus width of the attached card, if any.
    pub fn bus_width(&self) -> (v: Option<u8>)
        ensures
            v == (match self.card {
                Some(c) => Some(c.bus_width),
                None => None,
            }),
    {
        match &self.card {
            Some(card) => Some(card.bus_width),
            None => None,
        }
    }

    /// Set data bus width of the attached card; an error when there is none.
    pub fn set_bus_width(&mut self, value: u8) -> (r: Result<(), &'static str>)
        ensures
            match old(self).card {
                Some(c) => r is Ok && *final(self) == with_card(*old(self), Some(EMmcCard { bus_width: value, ..c })),
                None => r == Err::<(), &'static str>("No card present") && *final(self) == *old(self),
            },
    {
        match &mut self.card {
            Some(card) => {
                card.bus_width = value;
                Ok(())
            },
            None => Err("No card present"),
        }
    }

    /// Partitioning support bits of the attached card, if any.
    pub fn part_support(&self) -> (v: Option<u8>)
        ensures
            v == (match self.card {
                Some(c) => Some(c.part_support),
                None => None,
            }),
    {
        match &self.card {
            Some(card) => Some(card.part_support),
            None => None,
        }
    }

    /// Set partitioning support bits of the attached card; an error when there is none.
    pub fn set_part_support(&mut self, value: u8) -> (r: Result<(), &'static str>)
        ensures
            match old(self).card {
                Some(c) => r is Ok && *final(self) == with_card(*old(self), Some(EMmcCard { part_support: value, ..c })),
                None => r == Err::<(), &'static str>("No card present") && *final(self) == *old(self),
            },
    {
        match &mut self.card {
            Some(card) => {
                card.part_support = value;
                Ok(())
            },
            None => Err("No card present"),
        }
    }

    /// Partition attributes of the attached card, if any.
    pub fn part_attr(&self) -> (v: Option<u8>)
        ensures
            v == (match self.card {
                Some(c) => Some(c.part_attr),
                None => None,
            }),
    {
        match &self.card {
            Some(card) => Some(card.part_attr),
            None => None,
        }
    }

    /// Set partition attributes of the attached card; an error when there is none.
    pub fn set_part_attr(&mut self, value: u8) -> (r: Result<(), &'static str>)
        ensures
            match old(self).card {
                Some(c) => r is Ok && *final(self) == with_card(*old(self), Some(EMmcCard { part_attr: value, ..c })),
                None => r == Err::<(), &'static str>("No card present") && *final(self) == *old(self),
            },
    {
        match &mut self.card {
            Some(card) => {
                card.part_attr = value;
                Ok(())
            },
            None => Err("No card present"),
        }
    }

    /// Reliable write settings of the attached card, if any.
    pub fn wr_rel_set(&self) -> (v: Option<u8>)
        ensures
            v == (match self.card {
                Some(c) => Some(c.wr_rel_set),
                None => None,
            }),
    {
        match &self.card {
            Some(card) => Some(card.wr_rel_set),
            None => None,
        }
    }

    /// Set reliable write settings of the attached card; an error when there is none.
    pub fn set_wr_rel_set(&mut self, value: u8) -> (r: Result<(), &'static str>)
        ensures
            match old(self).card {
                Some(c) => r is Ok && *final(self) == with_card(*old(self), Some(EMmcCard { wr_rel_set: value, ..c })),
                None => r == Err::<(), &'static str>("No card present") && *final(self) == *old(self),
            },
    {
        match &mut self.card {
            Some(card) => {
                card.wr_rel_set = value;
                Ok(())
            },
            None => Err("No card present"),
        }
    }

    /// Partition configuration of the attached card, if any.
    pub fn part_config(&self) -> (v: Option<u8>)
        ensures
            v == (match self.card {
                Some(c) => Some(c.part_config),
                None => None,
            }),
    {
        match &self.card {
            Some(card) => Some(card.part_config),
            None => None,
        }
    }

    /// Set partition configuration of the attached card; an error when there is none.
    pub fn set_part_config(&mut self, value: u8) -> (r: Result<(), &'static str>)
        ensures
            match old(self).card {
                Some(c) => r is Ok && *final(self) == with_card(*old(self), Some(EMmcCard { part_config: value, ..c })),
                None => r == Err::<(), &'static str>("No card present") && *final(self) == *old(self),
            },
    {
        match &mut self.card {
            Some(card) => {
                card.part_config = value;
                Ok(())
            },
            None => Err("No card present"),
        }
    }

    /// Whether the attached card, if any, implements the DSR.
    pub fn dsr_imp(&self) -> (v: Option<u32>)
        ensures
            v == (match self.card {
                Some(c) => Some(c.dsr_imp),
                None => None,
            }),
    {
        match &self.card {
            Some(card) => Some(card.dsr_imp),
            None => None,
        }
    }

    /// Record on the attached card whether the DSR is implemented; an error when there is none.
    pub fn set_dsr_imp(&mut self, value: u32) -> (r: Result<(), &'static str>)
        ensures
            match old(self).card {
                Some(c) => r is Ok && *final(self) == with_card(*old(self), Some(EMmcCard { dsr_imp: value, ..c })),
                None => r == Err::<(), &'static str>("No card present") && *final(self) == *old(self),
            },
    {
        match &mut self.card {
            Some(card) => {
                card.dsr_imp = value;
                Ok(())
            },
            None => Err("No card present"),
        }
    }

    /// Card capability bits of the attached card, if any.
    pub fn card_caps(&self) -> (v: Option<u32>)
        ensures
            v == (match self.card {
                Some(c) => Some(c.card_caps),
                None => None,
            }),
    {
        match &self.card {
            Some(card) => Some(card.card_caps),
            None => None,
        }
    }

    /// Set card capability bits of the attached card; an error when there is none.
    pub fn set_card_caps(&mut self, value: u32) -> (r: Result<(), &'static str>)
        ensures
            match old(self).card {
                Some(c) => r is Ok && *final(self) == with_card(*old(self), Some(EMmcCard { card_caps: value, ..c })),
                None => r == Err::<(), &'static str>("No card present") && *final(self) == *old(self),
            },
    {
        match &mut self.card {
            Some(card) => {
                card.card_caps = value;
                Ok(())
            },
            None => Err("No card present"),
        }
    }

    /// Read block length exponent of the attached card, if any.
    pub fn read_bl_len(&self) -> (v: Option<u32>)
        ensures
            v == (match self.card {
                Some(c) => Some(c.read_bl_len),
                None => None,
            }),
    {
        match &self.card {
            Some(card) => Some(card.read_bl_len),
            None => None,
        }
    }

    /// Set read block length exponent of the attached card; an error when there is none.
    pub fn set_read_bl_len(&mut self, value: u32) -> (r: Result<(), &'static str>)
        ensures
            match old(self).card {
                Some(c) => r is Ok && *final(self) == with_card(*old(self), Some(EMmcCard { read_bl_len: value, ..c })),
                None => r == Err::<(), &'static str>("No card present") && *final(self) == *old(self),
            },
    {
        match &mut self.card {
            Some(card) => {
                card.read_bl_len = value;
                Ok(())
            },
            None => Err("No card present"),
        }
    }

    /// Write block length exponent of the attached card, if any.
    pub fn write_bl_len(&self) -> (v: Option<u32>)
        ensures
            v == (match self.card {
                Some(c) => Some(c.write_bl_len),
                None => None,
            }),
    {
        match &self.card {
            Some(card) => Some(card.write_bl_len),
            None => None,
        }
    }

    /// Set write block length exponent of the attached card; an error when there is none.
    pub fn set_write_bl_len(&mut self, value: u32) -> (r: Result<(), &'static str>)
        ensures
            match old(self).card {
                Some(c) => r is Ok && *final(self) == with_card(*old(self), Some(EMmcCard { write_bl_len: value, ..c })),
                None => r == Err::<(), &'static str>("No card present") && *final(self) == *old(self),
            },
    {
        match &mut self.card {
            Some(card) => {
                card.write_bl_len = value;
                Ok(())
            },
            None => Err("No card present"),
        }
    }

    /// Erase group size of the attached card, if any.
    pub fn erase_grp_size(&self) -> (v: Option<u32>)
        ensures
            v == (match self.card {
                Some(c) => Some(c.erase_grp_size),
                None => None,
            }),
    {
        match &self.card {
            Some(card) => Some(card.erase_grp_size),
            None => None,
        }
    }

    /// Set erase group size of the attached card; an error when there is none.
    pub fn set_erase_grp_size(&mut self, value: u32) -> (r: Result<(), &'static str>)
        ensures
            match old(self).card {
                Some(c) => r is Ok && *final(self) == with_card(*old(self), Some(EMmcCard { erase_grp_size: value, ..c })),
                None => r == Err::<(), &'static str>("No card present") && *final(self) == *old(self),
            },
    {
        match &mut self.card {
            Some(card) => {
                card.erase_grp_size = value;
                Ok(())
            },
            None => Err("No card present"),
        }
    }

    /// High-capacity write-protect group size of the attached card, if any.
    pub fn hc_wp_grp_size(&self) -> (v: Option<u64>)
        ensures
            v == (match self.card {
                Some(c) => Some(c.hc_wp_grp_size),
                None => None,
            }),
    {
        match &self.card {
            Some(card) => Some(card.hc_wp_grp_size),
            None => None,
        }
    }

    /// Set high-capacity write-protect group size of the attached card; an error when there is none.
    pub fn set_hc_wp_grp_size(&mut self, value: u64) -> (r: Result<(), &'static str>)
        ensures
            match old(self).card {
                Some(c) => r is Ok && *final(self) == with_card(*old(self), Some(EMmcCard { hc_wp_grp_size: value, ..c })),
                None => r == Err::<(), &'static str>("No card present") && *final(self) == *old(self),
            },
    {
        match &mut self.card {
            Some(card) => {
                card.hc_wp_grp_size = value;
                Ok(())
            },
            None => Err("No card present"),
        }
    }

    /// Capacity in bytes of the selected partition of the attached card, if any.
    pub fn capacity(&self) -> (v: Option<u64>)
        ensures
            v == (match self.card {
                Some(c) => Some(c.capacity),
                None => None,
            }),
    {
        match &self.card {
            Some(card) => Some(card.capacity),
            None => None,
        }
    }

    /// Set capacity in bytes of the selected partition of the attached card; an error when there is none.
    pub fn set_capacity(&mut self, value: u64) -> (r: Result<(), &'static str>)
        ensures
            match old(self).card {
                Some(c) => r is Ok && *final(self) == with_card(*old(self), Some(EMmcCard { capacity: value, ..c })),
                None => r == Err::<(), &'static str>("No card present") && *final(self) == *old(self),
            },
    {
        match &mut self.card {
            Some(card) => {
                card.capacity = value;
                Ok(())
            },
            None => Err("No card present"),
        }
    }

    /// Capacity in bytes of the user area of the attached card, if any.
    pub fn capacity_user(&self) -> (v: Option<u64>)
        ensures
            v == (match self.card {
                Some(c) => Some(c.capacity_user),
                None => None,
            }),
    {
        match &self.card {
            Some(card) => Some(card.capacity_user),
            None => None,
        }
    }

    /// Set capacity in bytes of the user area of the attached card; an error when there is none.
    pub fn set_capacity_user(&mut self, value: u64) -> (r: Result<(), &'static str>)
        ensures
            match old(self).card {
                Some(c) => r is Ok && *final(self) == with_card(*old(self), Some(EMmcCard { capacity_user: value, ..c })),
                None => r == Err::<(), &'static str>("No card present") && *final(self) == *old(self),
            },
    {
        match &mut self.card {
            Some(card) => {
                card.capacity_user = value;
                Ok(())
            },
            None => Err("No card present"),
        }
    }

    /// Capacity in bytes of a boot partition of the attached card, if any.
    pub fn capacity_boot(&self) -> (v: Option<u64>)
        ensures
            v == (match self.card {
                Some(c) => Some(c.capacity_boot),
                None => None,
            }),
    {
        match &self.card {
            Some(card) => Some(card.capacity_boot),
            None => None,
        }
    }

    /// Set capacity in bytes of a boot partition of the attached card; an error when there is none.
    pub fn set_capacity_boot(&mut self, value: u64) -> (r: Result<(), &'static str>)
        ensures
            match old(self).card {
                Some(c) => r is Ok && *final(self) == with_card(*old(self), Some(EMmcCard { capacity_boot: value, ..c })),
                None => r == Err::<(), &'static str>("No card present") && *final(self) == *old(self),
            },
    {
        match &mut self.card {
            Some(card) => {
                card.capacity_boot = value;
                Ok(())
            },
            None => Err("No card present"),
        }
    }

    /// Capacity in bytes of the RPMB partition of the attached card, if any.
    pub fn capacity_rpmb(&self) -> (v: Option<u64>)
        ensures
            v == (match self.card {
                Some(c) => Some(c.capacity_rpmb),
                None => None,
            }),
    {
        match &self.card {
            Some(card) => Some(card.capacity_rpmb),
            None => None,
        }
    }

    /// Set capacity in bytes of the RPMB partition of the attached card; an error when there is none.
    pub fn set_capacity_rpmb(&mut self, value: u64) -> (r: Result<(), &'static str>)
        ensures
            match old(self).card {
                Some(c) => r is Ok && *final(self) == with_card(*old(self), Some(EMmcCard { capacity_rpmb: value, ..c })),
                None => r == Err::<(), &'static str>("No card present") && *final(self) == *old(self),
            },
    {
        match &mut self.card {
            Some(card) => {
                card.capacity_rpmb = value;
                Ok(())
            },
            None => Err("No card present"),
        }
    }

    /// Extended CSD revision of the attached card, if any.
    pub fn ext_csd_rev(&self) -> (v: Option<u8>)
        ensures
            v == (match self.card {
                Some(c) => Some(c.ext_csd_rev),
                None => None,
            }),
    {
        match &self.card {
            Some(card) => Some(card.ext_csd_rev),
            None => None,
        }
    }

    /// Set extended CSD revision of the attached card; an error when there is none.
    pub fn set_ext_csd_rev(&mut self, value: u8) -> (r: Result<(), &'static str>)
        ensures
            match old(self).card {
                Some(c) => r is Ok && *final(self) == with_card(*old(self), Some(EMmcCard { ext_csd_rev: value, ..c })),
                None => r == Err::<(), &'static str>("No card present") && *final(self) == *old(self),
            },
    {
        match &mut self.card {
            Some(card) => {
                card.ext_csd_rev = value;
                Ok(())
            },
            None => Err("No card present"),
        }
    }

    /// Sector count reported by the extended CSD of the attached card, if any.
    pub fn ext_csd_sectors(&self) -> (v: Option<u64>)
        ensures
            v == (match self.card {
                Some(c) => Some(c.ext_csd_sectors),
                None => None,
            }),
    {
        match &self.card {
            Some(card) => Some(card.ext_csd_sectors),
            None => None,
        }
    }

    /// Set sector count reported by the extended CSD of the attached card; an error when there is none.
    pub fn set_ext_csd_sectors(&mut self, value: u64) -> (r: Result<(), &'static str>)
        ensures
            match old(self).card {
                Some(c) => r is Ok && *final(self) == with_card(*old(self), Some(EMmcCard { ext_csd_sectors: value, ..c })),
                None => r == Err::<(), &'static str>("No card present") && *final(self) == *old(self),
            },
    {
        match &mut self.card {
            Some(card) => {
                card.ext_csd_sectors = value;
                Ok(())
            },
            None => Err("No card present"),
        }
    }

    /// Maximum high-speed transfer rate of the attached card, if any.
    pub fn hs_max_dtr(&self) -> (v: Option<u32>)
        ensures
            v == (match self.card {
                Some(c) => Some(c.hs_max_dtr),
                None => None,
            }),
    {
        match &self.card {
            Some(card) => Some(card.hs_max_dtr),
            None => None,
        }
    }

    /// Set maximum high-speed transfer rate of the attached card; an error when there is none.
    pub fn set_hs_max_dtr(&mut self, value: u32) -> (r: Result<(), &'static str>)
        ensures
            match old(self).card {
                Some(c) => r is Ok && *final(self) == with_card(*old(self), Some(EMmcCard { hs_max_dtr: value, ..c })),
                None => r == Err::<(), &'static str>("No card present") && *final(self) == *old(self),
            },
    {
        match &mut self.card {
            Some(card) => {
                card.hs_max_dtr = value;
                Ok(())
            },
            None => Err("No card present"),
        }
    }

    /// Raw driver strength byte of the extended CSD of the attached card, if any.
    pub fn raw_driver_strength(&self) -> (v: Option<u8>)
        ensures
            v == (match self.card {
                Some(c) => Some(c.raw_driver_strength),
                None => None,
            }),
    {
        match &self.card {
            Some(card) => Some(card.raw_driver_strength),
            None => None,
        }
    }

    /// Set raw driver strength byte of the extended CSD of the attached card; an error when there is none.
    pub fn set_raw_driver_strength(&mut self, value: u8) -> (r: Result<(), &'static str>)
        ensures
            match old(self).card {
                Some(c) => r is Ok && *final(self) == with_card(*old(self), Some(EMmcCard { raw_driver_strength: value, ..c })),
                None => r == Err::<(), &'static str>("No card present") && *final(self) == *old(self),
            },
    {
        match &mut self.card {
            Some(card) => {
                card.raw_driver_strength = value;
                Ok(())
            },
            None => Err("No card present"),
        }
    }

    /// Card identification register of the attached card, if any.
    pub fn cid(&self) -> (v: Option<[u32; 4]>)
        ensures
            v == (match self.card {
                Some(c) => Some(c.cid),
                None => None,
            }),
    {
        match &self.card {
            Some(card) => Some(card.cid),
            None => None,
        }
    }

    /// Set card identification register of the attached card; an error when there is none.
    pub fn set_cid(&mut self, value: [u32; 4]) -> (r: Result<(), &'static str>)
        ensures
            match old(self).card {
                Some(c) => r is Ok && *final(self) == with_card(*old(self), Some(EMmcCard { cid: value, ..c })),
                None => r == Err::<(), &'static str>("No card present") && *final(self) == *old(self),
            },
    {
        match &mut self.card {
            Some(card) => {
                card.cid = value;
                Ok(())
            },
            None => Err("No card present"),
        }
    }

    /// Card-specific data register of the attached card, if any.
    pub fn csd(&self) -> (v: Option<[u32; 4]>)
        ensures
            v == (match self.card {
                Some(c) => Some(c.csd),
                None => None,
            }),
    {
        match &self.card {
            Some(card) => Some(card.csd),
            None => None,
        }
    }

    /// Set card-specific data register of the attached card; an error when there is none.
    pub fn set_csd(&mut self, value: [u32; 4]) -> (r: Result<(), &'static str>)
        ensures
            match old(self).card {
                Some(c) => r is Ok && *final(self) == with_card(*old(self), Some(EMmcCard { csd: value, ..c })),
                None => r == Err::<(), &'static str>("No card present") && *final(self) == *old(self),
            },
    {
        match &mut self.card {
            Some(card) => {
                card.csd = value;
                Ok(())
            },
            None => Err("No card present"),
        }
    }

    /// Capacities in bytes of the general-purpose partitions of the attached card, if any.
    pub fn capacity_gp(&self) -> (v: Option<[u64; 4]>)
        ensures
            v == (match self.card {
                Some(c) => Some(c.capacity_gp),
                None => None,
            }),
    {
        match &self.card {
            Some(card) => Some(card.capacity_gp),
            None => None,
        }
    }

    /// Set capacities in bytes of the general-purpose partitions of the attached card; an error when there is none.
    pub fn set_capacity_gp(&mut self, value: [u64; 4]) -> (r: Result<(), &'static str>)
        ensures
            match old(self).card {
                Some(c) => r is Ok && *final(self) == with_card(*old(self), Some(EMmcCard { capacity_gp: value, ..c })),
                None => r == Err::<(), &'static str>("No card present") && *final(self) == *old(self),
            },
    {
        match &mut self.card {
            Some(card) => {
                card.capacity_gp = value;
                Ok(())
            },
            None => Err("No card present"),
        }
    }

    /// Whether the attached card, if any, finished initialization.
    pub fn initialized(&self) -> (v: Option<bool>)
        ensures
            v == (match self.card {
                Some(c) => Some(c.initialized),
                None => None,
            }),
    {
        match &self.card {
            Some(card) => Some(card.initialized),
            None => None,
        }
    }

    /// Record on the attached card whether it finished initialization; an error when there is none.
    pub fn set_initialized(&mut self, value: bool) -> (r: Result<(), &'static str>)
        ensures
            match old(self).card {
                Some(c) => r is Ok && *final(self) == with_card(*old(self), Some(EMmcCard { initialized: value, ..c })),
                None => r == Err::<(), &'static str>("No card present") && *final(self) == *old(self),
            },
    {
        match &mut self.card {
            Some(card) => {
                card.initialized = value;
                Ok(())
            },
            None => Err("No card present"),
        }
    }

    /// Size of the enhanced user area of the attached card, if any.
    pub fn enh_user_size(&self) -> (v: Option<u64>)
        ensures
            v == (match self.card {
                Some(c) => Some(c.enh_user_size),
                None => None,
            }),
    {
        match &self.card {
            Some(card) => Some(card.enh_user_size),
            None => None,
        }
    }

    /// Set size of the enhanced user area of the attached card; an error when there is none.
    pub fn set_enh_user_size(&mut self, value: u64) -> (r: Result<(), &'static str>)
        ensures
            match old(self).card {
                Some(c) => r is Ok && *final(self) == with_card(*old(self), Some(EMmcCard { enh_user_size: value, ..c })),
                None => r == Err::<(), &'static str>("No card present") && *final(self) == *old(self),
            },
    {
        match &mut self.card {
            Some(card) => {
                card.enh_user_size = value;
                Ok(())
            },
            None => Err("No card present"),
        }
    }

    /// Start of the enhanced user area of the attached card, if any.
    pub fn enh_user_start(&self) -> (v: Option<u64>)
        ensures
            v == (match self.card {
                Some(c) => Some(c.enh_user_start),
                None => None,
            }),
    {
        match &self.card {
            Some(card) => Some(card.enh_user_start),
            None => None,
        }
    }

    /// Set start of the enhanced user area of the attached card; an error when there is none.
    pub fn set_enh_user_start(&mut self, value: u64) -> (r: Result<(), &'static str>)
        ensures
            match old(self).card {
                Some(c) => r is Ok && *final(self) == with_card(*old(self), Some(EMmcCard { enh_user_start: value, ..c })),
                None => r == Err::<(), &'static str>("No card present") && *final(self) == *old(self),
            },
    {
        match &mut self.card {
            Some(card) => {
                card.enh_user_start = value;
                Ok(())
            },
            None => Err("No card present"),
        }
    }

}

/// Summary of an initialized card, decoded from its CID.
pub open spec fn spec_card_info(c: EMmcCard) -> CardInfo {
    CardInfo {
        card_type: c.card_type,
        manufacturer_id: (c.cid[0] >> 24u32) as u8,
        application_id: ((c.cid[0] >> 8u32) & 0xffff) as u16,
        serial_number: ((c.cid[0] & 0xff) << 24u32) | ((c.cid[1] >> 8u32) & 0xff_ffff),
        manufacturing_month: ((c.cid[2] >> 24u32) & 0xf) as u8,
        manufacturing_year: ((((c.cid[1] & 0xf) << 4u32) | ((c.cid[2] >> 28u32) & 0xf)) + 2000) as u16,
        capacity_bytes: (c.capacity_blocks * 512) as u64,
        block_size: 512,
    }
}

impl EMmcHost {
    /// The card, if present and initialized: `NoCard` without one,
    /// `UnsupportedCard` before it is initialized.
    pub open spec fn ready_card(&self) -> Result<EMmcCard, SdError> {
        match self.card {
            None => Err(SdError::NoCard),
            Some(c) => if c.initialized {
                Ok(c)
            } else {
                Err(SdError::UnsupportedCard)
            },
        }
    }

    /// The argument of the status request (CMD13) to the initialized card:
    /// its relative address; `NoCard` or `UnsupportedCard` when there is
    /// no initialized card to ask.
    pub fn status_request(&self) -> (r: Result<u32, SdError>)
        ensures
            match self.ready_card() {
                Ok(c) => r == Ok::<u32, SdError>(c.rca),
                Err(e) => r == Err::<u32, SdError>(e),
            },
    {
        match &self.card {
            None => Err(SdError::NoCard),
            Some(card) => if card.initialized {
                Ok(card.rca)
            } else {
                Err(SdError::UnsupportedCard)
            },
        }
    }

    /// Summary of the initialized card.
    pub fn get_card_info(&self) -> (r: Result<CardInfo, SdError>)
        requires
            self.card is Some ==> self.card.unwrap().capacity_blocks * 512 <= u64::MAX,
        ensures
            match self.ready_card() {
                Ok(c) => r is Ok && r->Ok_0 == spec_card_info(c),
                Err(e) => r is Err && r->Err_0 == e,
            },
    {
        let card = match &self.card {
            Some(card) => card,
            None => { return Err(SdError::NoCard); },
        };
        if !card.initialized {
            return Err(SdError::UnsupportedCard);
        }
        let cid = card.cid;
        let manufacturer_id = (cid[0] >> 24u32) as u8;
        let application_id = ((cid[0] >> 8u32) & 0xffff) as u16;
        let serial_number = ((cid[0] & 0xff) << 24u32) | ((cid[1] >> 8u32) & 0xff_ffff);
        let cid1 = cid[1];
        let cid2 = cid[2];
        let year_bits = ((cid1 & 0xf) << 4u32) | ((cid2 >> 28u32) & 0xf);
        assert(year_bits <= 0xff) by (bit_vector)
            requires
                year_bits == ((cid1 & 0xf) << 4u32) | ((cid2 >> 28u32) & 0xf),
        ;
        let manufacturing_year = year_bits as u16 + 2000;
        let manufacturing_month = ((cid[2] >> 24u32) & 0xf) as u8;
        Ok(CardInfo {
            card_type: card.card_type,
            manufacturer_id,
            application_id,
            serial_number,
            manufacturing_month,
            manufacturing_year,
            capacity_bytes: card.capacity_blocks * 512,
            block_size: 512,
        })
    }

    /// Capacity in bytes of the initialized card.
    pub fn get_capacity(&self) -> (r: Result<u64, SdError>)
        requires
            self.card is Some ==> self.card.unwrap().capacity_blocks * 512 <= u64::MAX,
        ensures
            match self.ready_card() {
                Ok(c) => r == Ok::<u64, SdError>((c.capacity_blocks * 512) as u64),
                Err(e) => r == Err::<u64, SdError>(e),
            },
    {
        let card = match &self.card {
            Some(card) => card,
            None => { return Err(SdError::NoCard); },
        };
        if !card.initialized {
            return Err(SdError::UnsupportedCard);
        }
        Ok(card.capacity_blocks * 512)
    }

    /// Number of 512-byte blocks of the user area; zero without a card.
    pub fn get_block_num(&self) -> (n: u64)
        ensures
            n == (match self.card {
                Some(c) => c.capacity_user / 512,
                None => 0,
            }),
    {
        match &self.card {
            Some(card) => card.capacity_user / 512,
            None => 0,
        }
    }

    /// Read block size in bytes, `2^read_bl_len`; zero without a card.
    pub fn get_block_size(&self) -> (n: usize)
        requires
            self.card is Some ==> self.card.unwrap().read_bl_len < usize::BITS,
        ensures
            n == (match self.card {
                Some(c) => vstd::arithmetic::power2::pow2(c.read_bl_len as nat),
                None => 0,
            }),
    {
        match &self.card {
            Some(card) => {
                let n = card.read_bl_len as usize;
                proof {
                    vstd::bits::lemma_usize_pow2_no_overflow(n as nat);
                    vstd::bits::lemma_usize_shl_is_mul(1, n);
                }
                1usize << n
            },
            None => 0,
        }
    }
}

} // verus!
