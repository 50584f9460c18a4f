//! Clock errors and the clock provider of the eMMC host.
use vstd::prelude::*;

verus! {

/// Errors of the clock provider.
#[derive(Debug, Clone, Copy, PartialEq, Eq, Structural)]
pub enum ClkError {
    InvalidClockRate,
    RegisterOperationFailed,
    InvalidPeripheralId,
    ResetTimeout,
    NotInitialized,
}

/// A provider of the eMMC clock, implemented by the platform.
pub trait Clk {
    /// Current eMMC clock rate in Hz.
    fn emmc_get_clk(&self) -> Result<u64, ClkError>;

    /// Set the eMMC clock rate; returns the rate actually set.
    fn emmc_set_clk(&self, rate: u64) -> Result<u64, ClkError>;
}

/// Microsecond sleeps provided by the kernel.
pub trait Kernel {
    /// Sleep for `us` microseconds.
    fn sleep(us: u64);
}

} // verus!
