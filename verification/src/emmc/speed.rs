//! Bus speed decisions: the speed modes card and host share, the clock of
//! a timing, the bus width to try, the check of a bus width, and the
//! tuning of HS200.
use vstd::prelude::*;
use crate::emmc::err::SdError;
use crate::emmc::host::EMmcHost;
use crate::emmc::init::{
    EXT_CSD_HC_ERASE_GRP_SIZE, EXT_CSD_HC_WP_GRP_SIZE, EXT_CSD_LEN, EXT_CSD_PARTITIONING_SUPPORT,
    EXT_CSD_REV, EXT_CSD_SEC_CNT,
};
use crate::emmc::sdhci::{MMC_MODE_8BIT, MMC_MODE_HS};

verus! {

/// Host mode: DDR at 52 MHz.
pub const MMC_MODE_DDR_52MHZ: u32 = 0x20;
/// Host mode: HS200.
pub const MMC_MODE_HS200: u32 = 0x40;
/// Host mode: HS400.
pub const MMC_MODE_HS400: u32 = 0x80;
/// Host mode: HS400 with enhanced strobe.
pub const MMC_MODE_HS400ES: u32 = 0x100;
/// EXT_CSD byte: device type.
pub const EXT_CSD_CARD_TYPE: usize = 196;
/// EXT_CSD byte: enhanced strobe support.
pub const EXT_CSD_STROBE_SUPPORT: usize = 184;
/// Card type: high speed at 26 MHz.
pub const EXT_CSD_CARD_TYPE_26: u16 = 0x01;
/// Card type: high speed at 52 MHz.
pub const EXT_CSD_CARD_TYPE_52: u16 = 0x02;
/// Card type: DDR at 1.8 V.
pub const EXT_CSD_CARD_TYPE_DDR_1_8V: u16 = 0x04;
/// Card type: DDR at 1.2 V.
pub const EXT_CSD_CARD_TYPE_DDR_1_2V: u16 = 0x08;
/// Card type: HS200 at 1.8 V.
pub const EXT_CSD_CARD_TYPE_HS200_1_8V: u16 = 0x10;
/// Card type: HS200 at 1.2 V.
pub const EXT_CSD_CARD_TYPE_HS200_1_2V: u16 = 0x20;
/// Card type: HS400 at 1.8 V.
pub const EXT_CSD_CARD_TYPE_HS400_1_8V: u16 = 0x40;
/// Card type: HS400 at 1.2 V.
pub const EXT_CSD_CARD_TYPE_HS400_1_2V: u16 = 0x80;
/// Card type: HS400 with enhanced strobe.
pub const EXT_CSD_CARD_TYPE_HS400ES: u16 = 0x100;
/// Card type: any DDR at 52 MHz.
pub const EXT_CSD_CARD_TYPE_DDR_52: u16 = 0x0c;
/// Card type: any HS200.
pub const EXT_CSD_CARD_TYPE_HS200: u16 = 0x30;
/// Card type: any HS400.
pub const EXT_CSD_CARD_TYPE_HS400: u16 = 0xc0;
/// Timing: MMC high speed.
pub const MMC_TIMING_MMC_HS: u32 = 1;
/// Timing: SD high speed.
pub const MMC_TIMING_SD_HS: u32 = 2;
/// Timing: UHS DDR50.
pub const MMC_TIMING_UHS_DDR50: u32 = 7;
/// Timing: MMC DDR52.
pub const MMC_TIMING_MMC_DDR52: u32 = 8;
/// Timing: HS200.
pub const MMC_TIMING_MMC_HS200: u32 = 9;
/// Timing: HS400.
pub const MMC_TIMING_MMC_HS400: u32 = 10;
/// Timing: HS400 with enhanced strobe.
pub const MMC_TIMING_MMC_HS400ES: u32 = 11;
/// Clock of high speed at 26 MHz.
pub const MMC_HIGH_26_MAX_DTR: u32 = 26_000_000;
/// Clock of high speed at 52 MHz.
pub const MMC_HIGH_52_MAX_DTR: u32 = 52_000_000;
/// Clock of HS200.
pub const MMC_HS200_MAX_DTR: u32 = 200_000_000;
/// Tuning block command of HS200.
pub const MMC_SEND_TUNING_BLOCK_HS200: u8 = 21;
/// Bus width of eight data lines.
pub const MMC_BUS_WIDTH_8BIT: u8 = 8;
/// Bus width of four data lines.
pub const MMC_BUS_WIDTH_4BIT: u8 = 4;
/// Host control 2: execute tuning.
pub const MMC_CTRL_EXEC_TUNING: u16 = 0x0040;
/// Host control 2: tuned clock selected.
pub const MMC_CTRL_TUNED_CLK: u16 = 0x0080;
/// Tuning blocks sent before the tuning times out.
pub const MAX_TUNING_LOOP: u32 = 40;

/// Speed modes that card type `ct`, strobe support `strobe` and host modes
/// `caps` share: each card mode the host offers too; HS400 with HS200, and
/// enhanced strobe with both, on an 8-bit host.
pub open spec fn spec_card_type(caps: u32, ct: u16, strobe: u8) -> u16 {
    let a0: u16 = 0;
    let a1 = if caps & MMC_MODE_HS != 0 && ct & EXT_CSD_CARD_TYPE_26 != 0 {
        a0 | EXT_CSD_CARD_TYPE_26
    } else {
        a0
    };
    let a2 = if caps & MMC_MODE_HS != 0 && ct & EXT_CSD_CARD_TYPE_52 != 0 {
        a1 | EXT_CSD_CARD_TYPE_52
    } else {
        a1
    };
    let a3 = if caps & MMC_MODE_DDR_52MHZ != 0 && ct & EXT_CSD_CARD_TYPE_DDR_1_8V != 0 {
        a2 | EXT_CSD_CARD_TYPE_DDR_1_8V
    } else {
        a2
    };
    let a4 = if caps & MMC_MODE_HS200 != 0 && ct & EXT_CSD_CARD_TYPE_HS200_1_8V != 0 {
        a3 | EXT_CSD_CARD_TYPE_HS200_1_8V
    } else {
        a3
    };
    let a5 = if caps & MMC_MODE_HS400 != 0 && caps & MMC_MODE_8BIT != 0 && ct
        & EXT_CSD_CARD_TYPE_HS400_1_8V != 0 {
        a4 | (EXT_CSD_CARD_TYPE_HS200_1_8V | EXT_CSD_CARD_TYPE_HS400_1_8V)
    } else {
        a4
    };
    if caps & MMC_MODE_HS400ES != 0 && caps & MMC_MODE_8BIT != 0 && strobe != 0 && a5
        & EXT_CSD_CARD_TYPE_HS400_1_8V != 0 {
        a5 | (EXT_CSD_CARD_TYPE_HS200_1_8V | EXT_CSD_CARD_TYPE_HS400_1_8V
            | EXT_CSD_CARD_TYPE_HS400ES)
    } else {
        a5
    }
}

/// The speed modes that host modes `caps` and the card of this extended
/// CSD share; only its device-type and strobe-support bytes are read.
pub fn card_type_of(caps: u32, ext_csd: &[u8]) -> (avail: u16)
    requires
        ext_csd@.len() > EXT_CSD_CARD_TYPE,
    ensures
        avail == spec_card_type(
            caps,
            ext_csd@[EXT_CSD_CARD_TYPE as int] as u16,
            ext_csd@[EXT_CSD_STROBE_SUPPORT as int],
        ),
{
    let card_type = ext_csd[EXT_CSD_CARD_TYPE] as u16;
    let mut avail: u16 = 0;
    if (caps & MMC_MODE_HS) != 0 && (card_type & EXT_CSD_CARD_TYPE_26) != 0 {
        avail = avail | EXT_CSD_CARD_TYPE_26;
    }
    if (caps & MMC_MODE_HS) != 0 && (card_type & EXT_CSD_CARD_TYPE_52) != 0 {
        avail = avail | EXT_CSD_CARD_TYPE_52;
    }
    if (caps & MMC_MODE_DDR_52MHZ) != 0 && (card_type & EXT_CSD_CARD_TYPE_DDR_1_8V) != 0 {
        avail = avail | EXT_CSD_CARD_TYPE_DDR_1_8V;
    }
    if (caps & MMC_MODE_HS200) != 0 && (card_type & EXT_CSD_CARD_TYPE_HS200_1_8V) != 0 {
        avail = avail | EXT_CSD_CARD_TYPE_HS200_1_8V;
    }
    if (caps & MMC_MODE_HS400) != 0 && (caps & MMC_MODE_8BIT) != 0 && (card_type
        & EXT_CSD_CARD_TYPE_HS400_1_8V) != 0 {
        avail = avail | (EXT_CSD_CARD_TYPE_HS200_1_8V | EXT_CSD_CARD_TYPE_HS400_1_8V);
    }
    if (caps & MMC_MODE_HS400ES) != 0 && (caps & MMC_MODE_8BIT) != 0 && ext_csd[EXT_CSD_STROBE_SUPPORT]
        != 0 && (avail & EXT_CSD_CARD_TYPE_HS400_1_8V) != 0 {
        avail = avail | (EXT_CSD_CARD_TYPE_HS200_1_8V | EXT_CSD_CARD_TYPE_HS400_1_8V
            | EXT_CSD_CARD_TYPE_HS400ES);
    }
    avail
}

impl EMmcHost {
    /// The speed modes the card of this extended CSD and the host share;
    /// only its device-type and strobe-support bytes are read.
    pub fn mmc_select_card_type(&self, ext_csd: &[u8]) -> (avail: u16)
        requires
            ext_csd@.len() > EXT_CSD_CARD_TYPE,
        ensures
            avail == spec_card_type(
                self.host_caps,
                ext_csd@[EXT_CSD_CARD_TYPE as int] as u16,
                ext_csd@[EXT_CSD_STROBE_SUPPORT as int],
            ),
    {
        card_type_of(self.host_caps, ext_csd)
    }
}

/// The speed mode to switch to.
#[derive(Debug, Clone, Copy, PartialEq, Eq, Structural)]
pub enum SpeedMode {
    Hs200,
    HighSpeed,
}

/// HS200 when card and host share it, else high speed at 26 or 52 MHz,
/// else `InvalidArgument`.
pub open spec fn spec_speed_mode(avail: u16) -> Result<SpeedMode, SdError> {
    if avail & EXT_CSD_CARD_TYPE_HS200 != 0 {
        Ok(SpeedMode::Hs200)
    } else if avail & (EXT_CSD_CARD_TYPE_26 | EXT_CSD_CARD_TYPE_52) != 0 {
        Ok(SpeedMode::HighSpeed)
    } else {
        Err(SdError::InvalidArgument)
    }
}

/// Choose the speed mode from the shared modes.
pub fn speed_mode(avail: u16) -> (r: Result<SpeedMode, SdError>)
    ensures
        r == spec_speed_mode(avail),
{
    if avail & EXT_CSD_CARD_TYPE_HS200 != 0 {
        Ok(SpeedMode::Hs200)
    } else if avail & (EXT_CSD_CARD_TYPE_26 | EXT_CSD_CARD_TYPE_52) != 0 {
        Ok(SpeedMode::HighSpeed)
    } else {
        Err(SdError::InvalidArgument)
    }
}

/// The bus clock of a timing: 52 or 26 MHz in high speed, as the shared
/// modes allow; 200 MHz in HS200; zero otherwise.
pub open spec fn spec_bus_speed_clock(timing: u32, avail: u32) -> u32 {
    if timing == MMC_TIMING_MMC_HS || timing == MMC_TIMING_SD_HS {
        if avail & (EXT_CSD_CARD_TYPE_52 as u32) != 0 {
            MMC_HIGH_52_MAX_DTR
        } else {
            MMC_HIGH_26_MAX_DTR
        }
    } else if timing == MMC_TIMING_MMC_HS200 {
        MMC_HS200_MAX_DTR
    } else {
        0
    }
}

/// The bus clock to set for a timing and the shared modes.
pub fn bus_speed_clock(timing: u32, avail: u32) -> (clock: u32)
    ensures
        clock == spec_bus_speed_clock(timing, avail),
{
    if timing == MMC_TIMING_MMC_HS || timing == MMC_TIMING_SD_HS {
        if avail & (EXT_CSD_CARD_TYPE_52 as u32) != 0 {
            MMC_HIGH_52_MAX_DTR
        } else {
            MMC_HIGH_26_MAX_DTR
        }
    } else if timing == MMC_TIMING_MMC_HS200 {
        MMC_HS200_MAX_DTR
    } else {
        0
    }
}

/// The timing uses both clock edges.
pub fn timing_is_ddr(timing: u32) -> (b: bool)
    ensures
        b == (timing == MMC_TIMING_UHS_DDR50 || timing == MMC_TIMING_MMC_DDR52 || timing
            == MMC_TIMING_MMC_HS400 || timing == MMC_TIMING_MMC_HS400ES),
{
    timing == MMC_TIMING_UHS_DDR50 || timing == MMC_TIMING_MMC_DDR52 || timing
        == MMC_TIMING_MMC_HS400 || timing == MMC_TIMING_MMC_HS400ES
}

/// EXT_CSD bus width value of eight data lines.
pub const EXT_CSD_BUS_WIDTH_8: u8 = 2;
/// EXT_CSD bus width value of four data lines.
pub const EXT_CSD_BUS_WIDTH_4: u8 = 1;

/// Bus widths to try, widest first: (EXT_CSD value, data lines); eight
/// lines only when the host has them.
pub open spec fn spec_bus_width_candidates(host_caps: u32) -> Seq<(u8, u8)> {
    if host_caps & MMC_MODE_8BIT != 0 {
        seq![(EXT_CSD_BUS_WIDTH_8, MMC_BUS_WIDTH_8BIT), (EXT_CSD_BUS_WIDTH_4, MMC_BUS_WIDTH_4BIT)]
    } else {
        seq![(EXT_CSD_BUS_WIDTH_4, MMC_BUS_WIDTH_4BIT)]
    }
}

/// The bus widths to try, widest first.
pub fn bus_width_candidates(host_caps: u32) -> (v: Vec<(u8, u8)>)
    ensures
        v@ == spec_bus_width_candidates(host_caps),
{
    if host_caps & MMC_MODE_8BIT != 0 {
        vec![(EXT_CSD_BUS_WIDTH_8, MMC_BUS_WIDTH_8BIT), (EXT_CSD_BUS_WIDTH_4, MMC_BUS_WIDTH_4BIT)]
    } else {
        vec![(EXT_CSD_BUS_WIDTH_4, MMC_BUS_WIDTH_4BIT)]
    }
}

/// An extended CSD read back over a new bus width agrees with the one read
/// before: partitioning support, write-protect and erase group sizes,
/// revision and sector count.
pub open spec fn spec_bus_test_matches(a: Seq<u8>, b: Seq<u8>) -> bool {
    &&& a[EXT_CSD_PARTITIONING_SUPPORT as int] == b[EXT_CSD_PARTITIONING_SUPPORT as int]
    &&& a[EXT_CSD_HC_WP_GRP_SIZE as int] == b[EXT_CSD_HC_WP_GRP_SIZE as int]
    &&& a[EXT_CSD_REV as int] == b[EXT_CSD_REV as int]
    &&& a[EXT_CSD_HC_ERASE_GRP_SIZE as int] == b[EXT_CSD_HC_ERASE_GRP_SIZE as int]
    &&& forall|i: int| EXT_CSD_SEC_CNT <= i < EXT_CSD_SEC_CNT + 4 ==> a[i] == b[i]
}

/// Check an extended CSD read back over a new bus width.
pub fn bus_test_matches(ext_csd: &[u8], test_csd: &[u8]) -> (ok: bool)
    requires
        ext_csd@.len() > EXT_CSD_HC_ERASE_GRP_SIZE,
        test_csd@.len() > EXT_CSD_HC_ERASE_GRP_SIZE,
    ensures
        ok == spec_bus_test_matches(ext_csd@, test_csd@),
{
    let mut i: usize = 0;
    while i < 4
        invariant
            i <= 4,
            ext_csd@.len() > EXT_CSD_HC_ERASE_GRP_SIZE,
            test_csd@.len() > EXT_CSD_HC_ERASE_GRP_SIZE,
            forall|j: int| EXT_CSD_SEC_CNT <= j < EXT_CSD_SEC_CNT + i ==> ext_csd@[j] == test_csd@[j],
        decreases 4 - i,
    {
        if ext_csd[EXT_CSD_SEC_CNT + i] != test_csd[EXT_CSD_SEC_CNT + i] {
            return false;
        }
        i = i + 1;
    }
    ext_csd[EXT_CSD_PARTITIONING_SUPPORT] == test_csd[EXT_CSD_PARTITIONING_SUPPORT]
        && ext_csd[EXT_CSD_HC_WP_GRP_SIZE] == test_csd[EXT_CSD_HC_WP_GRP_SIZE]
        && ext_csd[EXT_CSD_REV] == test_csd[EXT_CSD_REV] && ext_csd[EXT_CSD_HC_ERASE_GRP_SIZE]
        == test_csd[EXT_CSD_HC_ERASE_GRP_SIZE]
}

/// The outcome of the bus width selection once no HS200 or enhanced-strobe
/// timing is in use: a width was set, or `BusWidth`.
pub fn bus_width_outcome(width: u8) -> (r: Result<(), SdError>)
    ensures
        r == (if width > 0 {
            Ok::<(), SdError>(())
        } else {
            Err::<(), SdError>(SdError::BusWidth)
        }),
{
    if width > 0 {
        Ok(())
    } else {
        Err(SdError::BusWidth)
    }
}

/// Bytes of a tuning block: 128 for the HS200 tuning command on an 8-bit
/// bus, else 64.
pub fn tuning_block_size(opcode: u8, bus_width: u8) -> (size: u16)
    ensures
        size == (if opcode == MMC_SEND_TUNING_BLOCK_HS200 && bus_width == MMC_BUS_WIDTH_8BIT {
            128u16
        } else {
            64u16
        }),
{
    if opcode == MMC_SEND_TUNING_BLOCK_HS200 && bus_width == MMC_BUS_WIDTH_8BIT {
        128
    } else {
        64
    }
}

/// The block size register value of a tuning block: the largest DMA
/// boundary (7) above the block size.
pub fn tuning_block_size_reg(size: u16) -> (r: u16)
    requires
        size <= 0x0fff,
    ensures
        r == 7 * 0x1000 + size,
{
    7 * 0x1000 + size
}

/// Tuning may start only in HS200 timing.
pub fn hs200_tuning_allowed(timing: u32) -> (r: Result<(), SdError>)
    ensures
        r == (if timing == MMC_TIMING_MMC_HS200 {
            Ok::<(), SdError>(())
        } else {
            Err::<(), SdError>(SdError::InvalidArgument)
        }),
{
    if timing == MMC_TIMING_MMC_HS200 {
        Ok(())
    } else {
        Err(SdError::InvalidArgument)
    }
}

/// What host control 2 says after a tuning block: still tuning (`None`),
/// tuned (`Ok`), or finished without a tuned clock (`Timeout`).
pub open spec fn spec_tuning_poll(ctrl: u16) -> Option<Result<(), SdError>> {
    if ctrl & MMC_CTRL_EXEC_TUNING != 0 {
        None
    } else if ctrl & MMC_CTRL_TUNED_CLK != 0 {
        Some(Ok(()))
    } else {
        Some(Err(SdError::Timeout))
    }
}

/// Read host control 2 after a tuning block.
pub fn tuning_poll(ctrl: u16) -> (r: Option<Result<(), SdError>>)
    ensures
        r == spec_tuning_poll(ctrl),
{
    if ctrl & MMC_CTRL_EXEC_TUNING != 0 {
        None
    } else if ctrl & MMC_CTRL_TUNED_CLK != 0 {
        Some(Ok(()))
    } else {
        Some(Err(SdError::Timeout))
    }
}

/// The modes card and host share: high speed at 26 and at 52 MHz when both
/// offer it (host bit 0, card bits 0 and 1), DDR at 1.8 V with host DDR
/// (bit 5), HS200 at 1.8 V with host HS200 (bit 6), HS400 at 1.8 V (card
/// bit 6) with host HS400 (bit 7) on an 8-bit host (bit 3), which brings
/// HS200 along, and enhanced strobe (bit 8) only on top of HS400 with the
/// card's strobe support; with no host modes nothing is shared.
pub proof fn law_card_type_shared(caps: u32, ct: u16, strobe: u8)
    ensures
        ({
            let r = spec_card_type(caps, ct, strobe);
            &&& (r & 0x01 != 0) <==> (caps & 0x01 != 0 && ct & 0x01 != 0)
            &&& (r & 0x02 != 0) <==> (caps & 0x01 != 0 && ct & 0x02 != 0)
            &&& (r & 0x04 != 0) <==> (caps & 0x20 != 0 && ct & 0x04 != 0)
            &&& (r & 0x40 != 0) <==> (caps & 0x80 != 0 && caps & 0x08 != 0 && ct & 0x40 != 0)
            &&& r & 0x40 != 0 ==> r & 0x10 != 0
            &&& r & 0x100 != 0 ==> r & 0x40 != 0 && strobe != 0 && caps & 0x100 != 0
            &&& caps & 0x1e1u32 == 0 ==> r == 0
        }),
{
    lemma_card_type_bits(caps, ct, strobe);
}

proof fn lemma_card_type_bits(caps: u32, ct: u16, strobe: u8)
    by (bit_vector)
    ensures
        ({
            let a0: u16 = 0;
            let a1 = if caps & 1 != 0 && ct & 1 != 0 { a0 | 1 } else { a0 };
            let a2 = if caps & 1 != 0 && ct & 2 != 0 { a1 | 2 } else { a1 };
            let a3 = if caps & 0x20 != 0 && ct & 4 != 0 { a2 | 4 } else { a2 };
            let a4 = if caps & 0x40 != 0 && ct & 0x10 != 0 { a3 | 0x10 } else { a3 };
            let a5 = if caps & 0x80 != 0 && caps & 8 != 0 && ct & 0x40 != 0 { a4 | (0x10u16 | 0x40u16) } else { a4 };
            let r = if caps & 0x100 != 0 && caps & 8 != 0 && strobe != 0 && a5 & 0x40 != 0 {
                a5 | (0x10u16 | 0x40u16 | 0x100u16)
            } else {
                a5
            };
            &&& (r & 0x01 != 0) <==> (caps & 0x01 != 0 && ct & 0x01 != 0)
            &&& (r & 0x02 != 0) <==> (caps & 0x01 != 0 && ct & 0x02 != 0)
            &&& (r & 0x04 != 0) <==> (caps & 0x20 != 0 && ct & 0x04 != 0)
            &&& (r & 0x40 != 0) <==> (caps & 0x80 != 0 && caps & 0x08 != 0 && ct & 0x40 != 0)
            &&& r & 0x40 != 0 ==> r & 0x10 != 0
            &&& r & 0x100 != 0 ==> r & 0x40 != 0 && strobe != 0 && caps & 0x100 != 0
            &&& caps & 0x1e1u32 == 0 ==> r == 0
        }),
{
}

/// HS200 is chosen whenever card and host share it (bit 4 or 5), else high
/// speed when they share 26 or 52 MHz (bits 0, 1), else nothing can be
/// chosen.
pub proof fn law_speed_mode_preference(avail: u16)
    ensures
        (spec_speed_mode(avail) == Ok::<SpeedMode, SdError>(SpeedMode::Hs200)) <==> avail & 0x30 != 0,
        (spec_speed_mode(avail) == Ok::<SpeedMode, SdError>(SpeedMode::HighSpeed)) <==> (avail & 0x30
            == 0 && avail & (0x01u16 | 0x02u16) != 0),
        spec_speed_mode(avail) is Err ==> spec_speed_mode(avail) == Err::<SpeedMode, SdError>(
            SdError::InvalidArgument,
        ),
{
}

/// The bus clock of a timing: 52 MHz in MMC or SD high speed (timings 1, 2)
/// when 52 MHz is shared (bit 1), else 26 MHz there; 200 MHz in HS200
/// (timing 9); no clock otherwise.
pub proof fn law_bus_speed_clock(timing: u32, avail: u32)
    ensures
        spec_bus_speed_clock(timing, avail) == (if timing == 1 || timing == 2 {
            if avail & 0x02 != 0 {
                52_000_000u32
            } else {
                26_000_000u32
            }
        } else if timing == 9 {
            200_000_000u32
        } else {
            0u32
        }),
{
}

/// Bus widths are tried widest first: eight lines (EXT_CSD value 2) only on
/// an 8-bit host (bit 3), then always four lines (EXT_CSD value 1).
pub proof fn law_bus_width_order(caps: u32)
    ensures
        spec_bus_width_candidates(caps).last() == (1u8, 4u8),
        (spec_bus_width_candidates(caps).len() == 2) <==> caps & 0x08 != 0,
        spec_bus_width_candidates(caps).len() == 2 ==> spec_bus_width_candidates(caps)[0] == (2u8, 8u8),
        spec_bus_width_candidates(caps).len() == 1 || spec_bus_width_candidates(caps).len() == 2,
{
}

/// Host control 2 after a tuning block: while execute-tuning (bit 6) is set
/// tuning goes on; once it clears, a tuned clock (bit 7) means success and
/// its absence a timeout.
pub proof fn law_tuning_poll_bits(ctrl: u16)
    ensures
        spec_tuning_poll(ctrl) is None <==> ctrl & 0x40 != 0,
        spec_tuning_poll(ctrl) == Some(Ok::<(), SdError>(())) <==> (ctrl & 0x40 == 0 && ctrl & 0x80
            != 0),
        spec_tuning_poll(ctrl) == Some(Err::<(), SdError>(SdError::Timeout)) <==> (ctrl & 0x40 == 0
            && ctrl & 0x80 == 0),
{
}

} // verus!
