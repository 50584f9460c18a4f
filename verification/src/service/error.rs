//! Errors of the service layer.
use vstd::prelude::*;
use vstd::string::StringExecFns;
use crate::err::{spec_error_text, RknpuError};

verus! {

/// Errors of the scheduler and ioctl layer.
#[derive(Debug, Clone, Copy, PartialEq, Eq, Structural)]
pub enum RknpuServiceError {
    /// Userspace passed an invalid ioctl argument or malformed payload.
    InvalidInput,
    /// Userspace memory could not be copied or validated.
    InvalidData,
    /// The requested submit or object handle does not exist.
    NotFound,
    /// The underlying device or OS resource is temporarily busy.
    Busy,
    /// A blocking wait was interrupted before terminal completion.
    Interrupted,
    /// The ioctl number is not recognized.
    BadIoctl,
    /// One low-level driver operation failed.
    Driver(RknpuError),
    /// Internal service invariant was violated.
    Internal,
}

/// The driver error closest to a service error.
pub open spec fn spec_to_driver_error(e: RknpuServiceError) -> RknpuError {
    match e {
        RknpuServiceError::InvalidInput | RknpuServiceError::InvalidData
        | RknpuServiceError::BadIoctl => RknpuError::InvalidParameter,
        RknpuServiceError::NotFound => RknpuError::InvalidHandle,
        RknpuServiceError::Busy => RknpuError::DeviceBusy,
        RknpuServiceError::Interrupted => RknpuError::Interrupted,
        RknpuServiceError::Driver(err) => err,
        RknpuServiceError::Internal => RknpuError::InternalError,
    }
}

impl RknpuServiceError {
    /// Convert a service failure into the closest driver error.
    pub fn to_driver_error(self) -> (e: RknpuError)
        ensures
            e == spec_to_driver_error(self),
    {
        match self {
            RknpuServiceError::InvalidInput | RknpuServiceError::InvalidData
            | RknpuServiceError::BadIoctl => RknpuError::InvalidParameter,
            RknpuServiceError::NotFound => RknpuError::InvalidHandle,
            RknpuServiceError::Busy => RknpuError::DeviceBusy,
            RknpuServiceError::Interrupted => RknpuError::Interrupted,
            RknpuServiceError::Driver(err) => err,
            RknpuServiceError::Internal => RknpuError::InternalError,
        }
    }

    /// The text the error displays as; a driver error adds the driver
    /// error's own text.
    pub fn describe(&self) -> (s: String)
        ensures
            s@ == spec_service_error_text(*self),
    {
        match self {
            RknpuServiceError::InvalidInput => String::from_str("invalid input"),
            RknpuServiceError::InvalidData => String::from_str("invalid data"),
            RknpuServiceError::NotFound => String::from_str("not found"),
            RknpuServiceError::Busy => String::from_str("busy"),
            RknpuServiceError::Interrupted => String::from_str("interrupted"),
            RknpuServiceError::BadIoctl => String::from_str("bad ioctl"),
            RknpuServiceError::Driver(err) => {
                let text = err.describe();
                String::from_str("driver error: ").concat(text.as_str())
            },
            RknpuServiceError::Internal => String::from_str("internal error"),
        }
    }
}

/// The text a service error displays as.
pub open spec fn spec_service_error_text(e: RknpuServiceError) -> Seq<char> {
    match e {
        RknpuServiceError::InvalidInput => "invalid input"@,
        RknpuServiceError::InvalidData => "invalid data"@,
        RknpuServiceError::NotFound => "not found"@,
        RknpuServiceError::Busy => "busy"@,
        RknpuServiceError::Interrupted => "interrupted"@,
        RknpuServiceError::BadIoctl => "bad ioctl"@,
        RknpuServiceError::Driver(err) => "driver error: "@ + spec_error_text(err),
        RknpuServiceError::Internal => "internal error"@,
    }
}

impl From<RknpuError> for RknpuServiceError {
    /// Wrap a driver error.
    fn from(value: RknpuError) -> (r: RknpuServiceError) {
        RknpuServiceError::Driver(value)
    }
}

impl vstd::std_specs::convert::FromSpecImpl<RknpuError> for RknpuServiceError {
    open spec fn obeys_from_spec() -> bool {
        true
    }

    open spec fn from_spec(v: RknpuError) -> RknpuServiceError {
        RknpuServiceError::Driver(v)
    }
}

/// A driver error wrapped into the service layer comes back unchanged.
pub proof fn law_driver_error_round_trip(e: RknpuError)
    ensures
        spec_to_driver_error(RknpuServiceError::Driver(e)) == e,
{
}

} // verus!
