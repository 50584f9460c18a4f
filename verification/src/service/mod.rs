//! Service layer: ioctl decoding, service errors and the multi-core scheduler.
pub mod error;
pub mod ioctl;
pub mod scheduler;
