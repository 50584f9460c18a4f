//! Verified core of the RK3588 NPU, eMMC host and NS16550 UART drivers.
//!
//! The library holds the register encodings, descriptor layouts, the
//! submit/lane state machine, the multi-core dispatch scheduler, the
//! worker's decisions, the host set-up and the card bookkeeping of the
//! drivers, and the NS16550 UART's frame encodings and interrupt
//! decisions. Everything that touches real MMIO or the OS lives outside this
//! crate and hands plain values in and out.
use vstd::prelude::*;

pub mod err;
pub mod job;
pub mod def;
pub mod sdma;
pub mod ioctrl;
pub mod taskqueen;
pub mod status;
pub mod registers;
pub mod service;
pub mod data;
pub mod submit;
pub mod interrupt;
pub mod pc;
pub mod npu;
pub mod desc;
pub mod context;
pub mod emmc;
pub mod batch;
pub mod gem;
pub mod serial;

verus! {

} // verus!
