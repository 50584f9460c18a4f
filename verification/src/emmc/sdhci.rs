//! Host-controller set-up decided from the SD host controller's version and
//! capabilities registers: the base clock, the bus modes the host offers and
//! the card voltage window.
use vstd::prelude::*;
use vstd::arithmetic::power2::{lemma2_to64, pow2};
use crate::emmc::aux::generic_fls;
use crate::emmc::err::SdError;
use crate::emmc::host::EMmcHost;

verus! {

/// Specification-version field of the host version register.
pub const EMMC_SPEC_VER_MASK: u16 = 0xff;
/// Specification version 3.00.
pub const EMMC_SPEC_300: u16 = 2;
/// Base clock field (MHz) of a version 3 capabilities register.
pub const EMMC_CLOCK_V3_BASE_MASK: u32 = 0x0000_ff00;
/// Base clock field (MHz) of an earlier capabilities register.
pub const EMMC_CLOCK_BASE_MASK: u32 = 0x0000_3f00;
/// Position of the base clock field.
pub const EMMC_CLOCK_BASE_SHIFT: u32 = 8;
/// Clock multiplier field of the second capabilities register.
pub const EMMC_CLOCK_MUL_MASK: u32 = 0x00ff_0000;
/// Position of the clock multiplier field.
pub const EMMC_CLOCK_MUL_SHIFT: u32 = 16;
/// The host supports an 8-bit bus.
pub const EMMC_CAN_DO_8BIT: u32 = 0x0004_0000;
/// The host supports 3.3 V.
pub const EMMC_CAN_VDD_330: u32 = 0x0100_0000;
/// The host supports 3.0 V.
pub const EMMC_CAN_VDD_300: u32 = 0x0200_0000;
/// The host supports 1.8 V.
pub const EMMC_CAN_VDD_180: u32 = 0x0400_0000;

/// High-speed mode.
pub const MMC_MODE_HS: u32 = 0x01;
/// High-speed 52 MHz mode.
pub const MMC_MODE_HS_52MHZ: u32 = 0x02;
/// 4-bit bus.
pub const MMC_MODE_4BIT: u32 = 0x04;
/// 8-bit bus.
pub const MMC_MODE_8BIT: u32 = 0x08;
/// The modes always added on this board: 8-bit bus and HS200.
pub const MMC_MODE_BOARD_EXTRA: u32 = 0x48;

/// Voltage window 1.65 V to 1.95 V.
pub const MMC_VDD_165_195: u32 = 0x0000_0080;
/// Voltage window 2.9 V to 3.0 V.
pub const MMC_VDD_29_30: u32 = 0x0002_0000;
/// Voltage window 3.0 V to 3.1 V.
pub const MMC_VDD_30_31: u32 = 0x0004_0000;
/// Voltage window 3.2 V to 3.3 V.
pub const MMC_VDD_32_33: u32 = 0x0010_0000;
/// Voltage window 3.3 V to 3.4 V.
pub const MMC_VDD_33_34: u32 = 0x0020_0000;

/// What the controller is set up with.
#[derive(Debug, Clone, Copy, PartialEq, Eq, Structural)]
pub struct HostInitConfig {
    /// Host version register.
    pub version: u16,
    /// Base clock in Hz.
    pub clock_base: u32,
    /// Bus modes the host offers.
    pub host_caps: u32,
    /// Card voltage window.
    pub voltages: u32,
    /// Power level to switch the card on with: the highest voltage bit.
    pub power_level: u32,
}

/// The host implements specification 3.00 or later.
pub open spec fn spec_v3(version: u16) -> bool {
    (version & EMMC_SPEC_VER_MASK) >= EMMC_SPEC_300
}

/// Clock multiplier announced by the second capabilities register; zero
/// before specification 3.00.
pub open spec fn spec_clock_mul(version: u16, caps2: u32) -> u32 {
    if spec_v3(version) {
        (caps2 & EMMC_CLOCK_MUL_MASK) >> EMMC_CLOCK_MUL_SHIFT
    } else {
        0
    }
}

/// Base clock field (MHz) of the capabilities register.
pub open spec fn spec_clock_field(version: u16, caps1: u32) -> u32 {
    if spec_v3(version) {
        (caps1 & EMMC_CLOCK_V3_BASE_MASK) >> EMMC_CLOCK_BASE_SHIFT
    } else {
        (caps1 & EMMC_CLOCK_BASE_MASK) >> EMMC_CLOCK_BASE_SHIFT
    }
}

/// Base clock in Hz: a known `clock_base` stays; otherwise the field of the
/// capabilities register in MHz, times the multiplier when there is one.
pub open spec fn spec_clock_base(version: u16, caps1: u32, caps2: u32, clock_base: u32) -> int {
    if clock_base != 0 {
        clock_base as int
    } else {
        let hz = spec_clock_field(version, caps1) * 1_000_000;
        if spec_clock_mul(version, caps2) != 0 {
            hz * spec_clock_mul(version, caps2)
        } else {
            hz
        }
    }
}

/// Bus modes the host offers: high speed, 52 MHz and a 4-bit bus, with the
/// board's 8-bit and HS200 modes added.
pub open spec fn spec_host_caps(version: u16, caps1: u32) -> u32 {
    let base = MMC_MODE_HS | MMC_MODE_HS_52MHZ | MMC_MODE_4BIT;
    let trimmed = if spec_v3(version) && caps1 & EMMC_CAN_DO_8BIT == 0 {
        base & !MMC_MODE_8BIT
    } else {
        base
    };
    trimmed | MMC_MODE_BOARD_EXTRA
}

/// Card voltage window of the highest voltage the host supports; zero when
/// it supports none of 3.3 V, 3.0 V and 1.8 V.
pub open spec fn spec_voltages(caps1: u32) -> u32 {
    if caps1 & EMMC_CAN_VDD_330 != 0 {
        MMC_VDD_32_33 | MMC_VDD_33_34
    } else if caps1 & EMMC_CAN_VDD_300 != 0 {
        MMC_VDD_29_30 | MMC_VDD_30_31
    } else if caps1 & EMMC_CAN_VDD_180 != 0 {
        MMC_VDD_165_195
    } else {
        0
    }
}

/// Power level of a voltage window: the position of its highest bit.
pub open spec fn spec_power_level(voltages: u32) -> u32 {
    if voltages == MMC_VDD_32_33 | MMC_VDD_33_34 {
        21
    } else if voltages == MMC_VDD_29_30 | MMC_VDD_30_31 {
        18
    } else {
        7
    }
}

/// The set-up, or `UnsupportedCard` when the host names no base clock or
/// no supported voltage.
pub open spec fn spec_host_init_config(version: u16, caps1: u32, caps2: u32, clock_base: u32) -> Result<
    HostInitConfig,
    SdError,
> {
    let clock = spec_clock_base(version, caps1, caps2, clock_base);
    let voltages = spec_voltages(caps1);
    if clock == 0 || voltages == 0 {
        Err(SdError::UnsupportedCard)
    } else {
        Ok(
            HostInitConfig {
                version,
                clock_base: clock as u32,
                host_caps: spec_host_caps(version, caps1),
                voltages,
                power_level: spec_power_level(voltages),
            },
        )
    }
}

proof fn lemma_sdhci_constants()
    by (bit_vector)
    ensures
        0x10_0000u32 | 0x20_0000u32 == 0x30_0000u32,
        0x2_0000u32 | 0x4_0000u32 == 0x6_0000u32,
        ((0x01u32 | 0x02u32 | 0x04u32) & !0x08u32) | 0x48u32 == 0x4fu32,
        (0x01u32 | 0x02u32 | 0x04u32) | 0x48u32 == 0x4fu32,
{
}

/// The host's voltage window: 3.2 to 3.4 V (0x30_0000) when it supports
/// 3.3 V (capabilities bit 24), else 2.9 to 3.1 V (0x6_0000) for 3.0 V (bit
/// 25), else 1.65 to 1.95 V (0x80) for 1.8 V (bit 26), else none; the power
/// level is the highest bit of the window, `2^level <= window <
/// 2^(level + 1)`. The bus modes are always high speed, 52 MHz, 4- and
/// 8-bit and HS200 (0x4f).
pub proof fn law_host_voltage_and_modes(version: u16, caps1: u32)
    ensures
        spec_voltages(caps1) == (if caps1 & 0x0100_0000 != 0 {
            0x30_0000u32
        } else if caps1 & 0x0200_0000 != 0 {
            0x6_0000u32
        } else if caps1 & 0x0400_0000 != 0 {
            0x80u32
        } else {
            0u32
        }),
        spec_voltages(caps1) != 0 ==> ({
            let l = spec_power_level(spec_voltages(caps1)) as nat;
            pow2(l) <= spec_voltages(caps1) < pow2(l + 1)
        }),
        spec_host_caps(version, caps1) == 0x4f,
{
    lemma_sdhci_constants();
    lemma2_to64();
}

/// The base clock computation stays in 32 bits.
pub open spec fn clock_fits(version: u16, caps1: u32, caps2: u32, clock_base: u32) -> bool {
    spec_clock_base(version, caps1, caps2, clock_base) <= u32::MAX
}

/// Whether the base clock of these registers, with the clock known so far,
/// stays in 32 bits.
pub fn clock_base_fits(version: u16, caps1: u32, caps2: u32, clock_base: u32) -> (b: bool)
    ensures
        b == clock_fits(version, caps1, caps2, clock_base),
{
    if clock_base != 0 {
        return true;
    }
    let v3 = (version & EMMC_SPEC_VER_MASK) >= EMMC_SPEC_300;
    let field = if v3 {
        (caps1 & EMMC_CLOCK_V3_BASE_MASK) >> EMMC_CLOCK_BASE_SHIFT
    } else {
        (caps1 & EMMC_CLOCK_BASE_MASK) >> EMMC_CLOCK_BASE_SHIFT
    };
    let mul = if v3 {
        (caps2 & EMMC_CLOCK_MUL_MASK) >> EMMC_CLOCK_MUL_SHIFT
    } else {
        0
    };
    let hz = (field as u64) * 1_000_000u64;
    if mul == 0 {
        return hz <= 0xffff_ffffu64;
    }
    match hz.checked_mul(mul as u64) {
        Some(p) => p <= 0xffff_ffffu64,
        None => false,
    }
}

/// Base clock in Hz decided from the registers and the clock known so far.
fn clock_base_of(version: u16, caps1: u32, caps2: u32, clock_base: u32) -> (c: u32)
    requires
        clock_fits(version, caps1, caps2, clock_base),
    ensures
        c == spec_clock_base(version, caps1, caps2, clock_base),
{
    let v3 = (version & EMMC_SPEC_VER_MASK) >= EMMC_SPEC_300;
    let mut clk_mul: u32 = 0;
    if v3 {
        clk_mul = (caps2 & EMMC_CLOCK_MUL_MASK) >> EMMC_CLOCK_MUL_SHIFT;
    }
    let mut clock = clock_base;
    if clock == 0 {
        let field = if v3 {
            (caps1 & EMMC_CLOCK_V3_BASE_MASK) >> EMMC_CLOCK_BASE_SHIFT
        } else {
            (caps1 & EMMC_CLOCK_BASE_MASK) >> EMMC_CLOCK_BASE_SHIFT
        };
        assert(field <= 0xff) by (bit_vector)
            requires
                field == (caps1 & 0x0000_ff00u32) >> 8u32 || field == (caps1 & 0x0000_3f00u32) >> 8u32,
        ;
        clock = field * 1_000_000;
        if clk_mul != 0 {
            assert(clock as int * clk_mul as int == spec_clock_base(version, caps1, caps2, clock_base));
            clock = clock * clk_mul;
        }
    }
    clock
}

/// Bus modes the host offers.
fn host_caps_of(version: u16, caps1: u32) -> (c: u32)
    ensures
        c == spec_host_caps(version, caps1),
{
    let mut host_caps = MMC_MODE_HS | MMC_MODE_HS_52MHZ | MMC_MODE_4BIT;
    if (version & EMMC_SPEC_VER_MASK) >= EMMC_SPEC_300 && (caps1 & EMMC_CAN_DO_8BIT) == 0 {
        host_caps = host_caps & !MMC_MODE_8BIT;
    }
    host_caps | MMC_MODE_BOARD_EXTRA
}

/// Decide the controller set-up from the version register, the two
/// capabilities registers and the base clock known so far.
pub fn host_init_config(version: u16, caps1: u32, caps2: u32, clock_base: u32) -> (r: Result<
    HostInitConfig,
    SdError,
>)
    requires
        clock_fits(version, caps1, caps2, clock_base),
    ensures
        r == spec_host_init_config(version, caps1, caps2, clock_base),
{
    let clock = clock_base_of(version, caps1, caps2, clock_base);
    if clock == 0 {
        return Err(SdError::UnsupportedCard);
    }
    let host_caps = host_caps_of(version, caps1);
    let voltages = if (caps1 & EMMC_CAN_VDD_330) != 0 {
        MMC_VDD_32_33 | MMC_VDD_33_34
    } else if (caps1 & EMMC_CAN_VDD_300) != 0 {
        MMC_VDD_29_30 | MMC_VDD_30_31
    } else if (caps1 & EMMC_CAN_VDD_180) != 0 {
        MMC_VDD_165_195
    } else {
        return Err(SdError::UnsupportedCard);
    };
    let fls = generic_fls(voltages);
    assert(0x0010_0000u32 | 0x0020_0000u32 == 0x0030_0000u32) by (bit_vector);
    assert(0x0002_0000u32 | 0x0004_0000u32 == 0x0006_0000u32) by (bit_vector);
    assert(fls - 1 == spec_power_level(voltages)) by {
        assert(voltages == 0x0030_0000u32 || voltages == 0x0006_0000u32 || voltages == 0x80u32);
        assert(voltages == 0x0030_0000u32 && fls >= 1 && voltages >> ((fls - 1) as u32) == 1 ==> fls == 22)
            by (bit_vector);
        assert(voltages == 0x0006_0000u32 && fls >= 1 && voltages >> ((fls - 1) as u32) == 1 ==> fls == 19)
            by (bit_vector);
        assert(voltages == 0x80u32 && fls >= 1 && voltages >> ((fls - 1) as u32) == 1 ==> fls == 8)
            by (bit_vector);
    }
    Ok(HostInitConfig { version, clock_base: clock, host_caps, voltages, power_level: fls - 1 })
}

impl EMmcHost {
    /// Set the controller up from its version and capabilities registers
    /// and return the power level to switch the card on with. The version
    /// is always recorded; the base clock once it is known to be non-zero;
    /// the bus modes before the voltage window is chosen; the voltage window
    /// when the host supports one.
    pub fn configure(&mut self, version: u16, caps1: u32, caps2: u32) -> (r: Result<u32, SdError>)
        requires
            clock_fits(version, caps1, caps2, old(self).clock_base),
        ensures
            ({
                let clock = spec_clock_base(version, caps1, caps2, old(self).clock_base);
                match spec_host_init_config(version, caps1, caps2, old(self).clock_base) {
                    Ok(cfg) => r == Ok::<u32, SdError>(cfg.power_level) && *final(self) == (EMmcHost {
                        version,
                        clock_base: cfg.clock_base,
                        host_caps: cfg.host_caps,
                        voltages: cfg.voltages,
                        ..*old(self)
                    }),
                    Err(e) => r == Err::<u32, SdError>(e) && *final(self) == (if clock == 0 {
                        EMmcHost { version, clock_base: 0, ..*old(self) }
                    } else {
                        EMmcHost {
                            version,
                            clock_base: clock as u32,
                            host_caps: spec_host_caps(version, caps1),
                            ..*old(self)
                        }
                    }),
                }
            }),
    {
        let known_clock = self.clock_base;
        self.version = version;
        self.clock_base = clock_base_of(version, caps1, caps2, known_clock);
        if self.clock_base == 0 {
            return Err(SdError::UnsupportedCard);
        }
        self.host_caps = host_caps_of(version, caps1);
        match host_init_config(version, caps1, caps2, known_clock) {
            Ok(cfg) => {
                self.voltages = cfg.voltages;
                Ok(cfg.power_level)
            },
            Err(e) => Err(e),
        }
    }
}

/// Polls of the software reset before it times out.
pub const EMMC_RESET_TIMEOUT: u32 = 20;

/// Where a software reset stands after a read of the reset register.
#[derive(Debug, Clone, Copy, PartialEq, Eq, Structural)]
pub enum ResetPoll {
    /// The reset bits cleared.
    Done,
    /// Still resetting: wait a millisecond, with this many polls left.
    Wait(u32),
    /// Still resetting and no polls left.
    TimedOut,
}

/// Judge a read `status` of the reset register for a reset of `mask`, with
/// `remaining` polls left.
pub fn reset_poll(status: u8, mask: u8, remaining: u32) -> (r: ResetPoll)
    ensures
        r == (if status & mask == 0 {
            ResetPoll::Done
        } else if remaining == 0 {
            ResetPoll::TimedOut
        } else {
            ResetPoll::Wait((remaining - 1) as u32)
        }),
{
    if status & mask == 0 {
        ResetPoll::Done
    } else if remaining == 0 {
        ResetPoll::TimedOut
    } else {
        ResetPoll::Wait(remaining - 1)
    }
}

} // verus!
