//! Register-level description of one submission batch.
use vstd::prelude::*;
use crate::job::JobMode;

verus! {

/// Shared parameters of a batch of tasks.
#[derive(Debug, Clone, Copy)]
pub struct SubmitBase {
    /// Execution-mode flags such as `PC`, `BLOCK` or `PINGPONG`.
    pub flags: JobMode,
    /// DMA address of the `RknpuTask[]` descriptor array.
    pub task_array_dma_address: u32,
    /// Target NPU core index.
    pub core_idx: usize,
    /// Interrupt mask to wait for after launch.
    pub int_mask: u32,
    /// Bits written to `INTERRUPT_CLEAR` before launch.
    pub int_clear: u32,
    /// Number of 64-bit regcmd words per task.
    pub regcfg_amount: u32,
}

/// A submission batch as the register layer sees it.
#[derive(Debug, Clone, Copy)]
pub struct SubmitRef {
    /// Shared submission parameters.
    pub base: SubmitBase,
    /// Number of tasks in this batch.
    pub task_number: usize,
    /// DMA address of the first regcmd of the batch.
    pub regcmd_base_addr: u32,
}

} // verus!
