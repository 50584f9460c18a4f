//! Per-chip tuning of the eMMC host.
use vstd::prelude::*;

verus! {

/// Delay-line flag: the receive clock is not inverted.
pub const RK_RXCLK_NO_INVERTER: u32 = 1 << 29;

/// Chip-specific delay-line and clock settings of the host.
#[derive(Debug, Clone, Copy, PartialEq, Eq, Structural)]
pub struct EMmcChipConfig {
    pub flags: u32,
    pub hs200_tx_tap: u8,
    pub hs400_tx_tap: u8,
    pub hs400_cmd_tap: u8,
    pub hs400_strbin_tap: u8,
    pub _ddr50_strbin_delay_num: u8,
}

impl EMmcChipConfig {
    /// The RK3568 settings: receive clock not inverted, HS200 transmit tap
    /// 16, HS400 transmit and command taps 8, strobe tap 3 and DDR50 strobe
    /// delay 16.
    pub fn rk3568_config() -> (c: EMmcChipConfig)
        ensures
            c == (EMmcChipConfig {
                flags: RK_RXCLK_NO_INVERTER,
                hs200_tx_tap: 16,
                hs400_tx_tap: 8,
                hs400_cmd_tap: 8,
                hs400_strbin_tap: 3,
                _ddr50_strbin_delay_num: 16,
            }),
    {
        EMmcChipConfig {
            flags: RK_RXCLK_NO_INVERTER,
            hs200_tx_tap: 16,
            hs400_tx_tap: 8,
            hs400_cmd_tap: 8,
            hs400_strbin_tap: 3,
            _ddr50_strbin_delay_num: 16,
        }
    }
}

} // verus!
