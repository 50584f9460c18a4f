//! Errors of the eMMC host.
use vstd::prelude::*;

verus! {

/// Errors of eMMC card operations.
#[derive(Debug, Clone, Copy, PartialEq, Eq, Structural)]
pub enum SdError {
    BadMessage,
    BusWidth,
    CommandError,
    DataCrc,
    DataEndBit,
    DataError,
    DataTimeout,
    InvalidArgument,
    IoError,
    MemoryError,
    NoCard,
    Timeout,
    UnsupportedCard,
}

} // verus!
