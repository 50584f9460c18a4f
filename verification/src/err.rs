//! Error types shared by every driver operation.
use vstd::prelude::*;
use vstd::string::StringExecFns;

verus! {

/// Unified error type for all RKNPU driver operations.
#[derive(Debug, Clone, Copy, PartialEq, Eq, Structural)]
pub enum RknpuError {
    /// The caller supplied an invalid address, size, core mask, or flag value.
    InvalidParameter,
    /// The NPU did not finish before the configured deadline.
    Timeout,
    /// DMA-buffer or internal-state allocation failed.
    OutOfMemory,
    /// The requested operation is not supported on this NPU variant.
    NotSupported,
    /// Another task is already running on the requested core.
    DeviceBusy,
    /// The NPU has not been initialized or powered up yet.
    DeviceNotReady,
    /// Generic hardware error when no better classification is available.
    DeviceError,
    /// The interrupt status register reported a fatal hardware fault.
    HardwareFault,
    /// IOMMU translation fault while the NPU accessed an unmapped address.
    IommuError,
    /// DMA transfer failed.
    DmaError,
    /// Task completion status did not match the expected interrupt mask.
    TaskError,
    /// GEM or memory-pool operation failed.
    MemoryError,
    /// The requested GEM object handle was not found.
    InvalidHandle,
    /// The resource is temporarily unavailable and the caller should retry.
    TryAgain,
    /// A blocking wait was interrupted.
    Interrupted,
    /// The caller lacks permission for this operation.
    PermissionDenied,
    /// Internal driver logic error.
    InternalError,
}

/// The text an error displays as: its variant's name.
pub open spec fn spec_error_text(e: RknpuError) -> Seq<char> {
    match e {
        RknpuError::InvalidParameter => "InvalidParameter"@,
        RknpuError::Timeout => "Timeout"@,
        RknpuError::OutOfMemory => "OutOfMemory"@,
        RknpuError::NotSupported => "NotSupported"@,
        RknpuError::DeviceBusy => "DeviceBusy"@,
        RknpuError::DeviceNotReady => "DeviceNotReady"@,
        RknpuError::DeviceError => "DeviceError"@,
        RknpuError::HardwareFault => "HardwareFault"@,
        RknpuError::IommuError => "IommuError"@,
        RknpuError::DmaError => "DmaError"@,
        RknpuError::TaskError => "TaskError"@,
        RknpuError::MemoryError => "MemoryError"@,
        RknpuError::InvalidHandle => "InvalidHandle"@,
        RknpuError::TryAgain => "TryAgain"@,
        RknpuError::Interrupted => "Interrupted"@,
        RknpuError::PermissionDenied => "PermissionDenied"@,
        RknpuError::InternalError => "InternalError"@,
    }
}

impl RknpuError {
    /// The text the error displays as: its variant's name.
    pub fn describe(&self) -> (s: String)
        ensures
            s@ == spec_error_text(*self),
    {
        match self {
            RknpuError::InvalidParameter => String::from_str("InvalidParameter"),
            RknpuError::Timeout => String::from_str("Timeout"),
            RknpuError::OutOfMemory => String::from_str("OutOfMemory"),
            RknpuError::NotSupported => String::from_str("NotSupported"),
            RknpuError::DeviceBusy => String::from_str("DeviceBusy"),
            RknpuError::DeviceNotReady => String::from_str("DeviceNotReady"),
            RknpuError::DeviceError => String::from_str("DeviceError"),
            RknpuError::HardwareFault => String::from_str("HardwareFault"),
            RknpuError::IommuError => String::from_str("IommuError"),
            RknpuError::DmaError => String::from_str("DmaError"),
            RknpuError::TaskError => String::from_str("TaskError"),
            RknpuError::MemoryError => String::from_str("MemoryError"),
            RknpuError::InvalidHandle => String::from_str("InvalidHandle"),
            RknpuError::TryAgain => String::from_str("TryAgain"),
            RknpuError::Interrupted => String::from_str("Interrupted"),
            RknpuError::PermissionDenied => String::from_str("PermissionDenied"),
            RknpuError::InternalError => String::from_str("InternalError"),
        }
    }
}

/// Error type returned by low-level OS abstraction helpers.
#[derive(Debug, Clone, Copy, PartialEq, Eq, Structural)]
pub enum OsalError {
    /// Memory allocation failed.
    OutOfMemory,
    /// The caller provided an invalid address, size, or alignment.
    InvalidParameter,
    /// A blocking operation timed out.
    TimeoutError,
    /// The NPU hardware reported a non-recoverable error.
    DeviceError,
    /// The requested feature is not supported by this NPU variant.
    NotSupported,
}

} // verus!
