//! Batched submission of a lane's tasks on one core: sizing each batch,
//! describing it to the PC block, and reading the interrupt status while it
//! runs. Waiting between looks belongs to the caller.
use vstd::prelude::*;
use crate::err::RknpuError;
use crate::interrupt::{
    RknpuSharedState, spec_fuzz_status, interrupt_cleared, irq_effect, irq_taken_window, spec_register_snapshot,
};
use crate::job::{JobMode, RknpuTask};
use crate::registers::{RknpuCore, window_word, INT_CLEAR_ALL, RKNPU_PC_DATA_EXTRA_AMOUNT};
use crate::submit::{SubmitBase, SubmitRef};
use crate::data::RknpuData;
use crate::pc::pc_program_window;

verus! {

/// What one look at the interrupt status says of a running batch.
#[derive(Debug, Clone, Copy, PartialEq, Eq, Structural)]
pub enum WaitStep {
    /// The batch completed; the expected bits that were seen.
    Done(u32),
    /// Some other interrupt arrived: the batch faulted.
    Fault,
    /// Nothing yet: keep waiting.
    Pending,
}

/// The outcome of a status look for a batch waiting on `int_mask`.
pub open spec fn spec_wait_step(status: u32, int_mask: u32) -> WaitStep {
    if status & int_mask > 0 {
        WaitStep::Done(int_mask & status)
    } else if status != 0 {
        WaitStep::Fault
    } else {
        WaitStep::Pending
    }
}

/// Classify a status look: an expected bit completes the batch, any other
/// bit faults it, none means it still runs.
pub fn wait_step(status: u32, int_mask: u32) -> (r: WaitStep)
    ensures
        r == spec_wait_step(status, int_mask),
{
    if status & int_mask > 0 {
        WaitStep::Done(int_mask & status)
    } else if status != 0 {
        WaitStep::Fault
    } else {
        WaitStep::Pending
    }
}

/// The error a faulted batch ends the submission with.
pub fn fault_error() -> (e: RknpuError)
    ensures
        e == RknpuError::TaskError,
{
    RknpuError::TaskError
}

/// Number of tasks of the next batch: what is left of the lane, at most the
/// PC block's batch limit.
pub fn batch_size(task_iter: usize, task_iter_end: usize, max_submit_number: usize) -> (n: usize)
    requires
        task_iter <= task_iter_end,
    ensures
        n == (if task_iter_end - task_iter < max_submit_number {
            task_iter_end - task_iter
        } else {
            max_submit_number as int
        }),
{
    let left = task_iter_end - task_iter;
    if left < max_submit_number {
        left
    } else {
        max_submit_number
    }
}

/// The batch of tasks `first .. first + n` on core `idx`: it waits for the
/// last task's interrupt, clears the first task's bits, and takes the first
/// task's command count and buffer.
pub open spec fn spec_batch_ref(flags: u32, task_dma: u64, idx: usize, tasks: Seq<RknpuTask>, first: int, n: usize) -> SubmitRef {
    SubmitRef {
        base: SubmitBase {
            flags: JobMode { bits: flags },
            task_array_dma_address: task_dma as u32,
            core_idx: idx,
            int_mask: tasks[first + n - 1].int_mask,
            int_clear: tasks[first].int_mask,
            regcfg_amount: tasks[first].regcfg_amount,
        },
        task_number: n,
        regcmd_base_addr: tasks[first].regcmd_addr as u32,
    }
}

/// A batch of `n` tasks starting at task `first` runs on core `idx` with
/// `n` tasks, starts fetching at the first task's regcmd buffer with the
/// first task's command count, clears the first task's interrupt bits
/// before it starts and completes on the last task's interrupt bits.
pub proof fn law_batch_spans_first_to_last(
    flags: u32,
    task_dma: u64,
    idx: usize,
    tasks: Seq<RknpuTask>,
    first: int,
    n: usize,
)
    requires
        n > 0,
        0 <= first,
        first + n <= tasks.len(),
    ensures
        ({
            let b = spec_batch_ref(flags, task_dma, idx, tasks, first, n);
            &&& b.task_number == n
            &&& b.base.core_idx == idx
            &&& b.base.int_mask == tasks[first + (n - 1)].int_mask
            &&& b.base.int_clear == tasks[first].int_mask
            &&& b.base.regcfg_amount == tasks[first].regcfg_amount
            &&& b.regcmd_base_addr == tasks[first].regcmd_addr as u32
            &&& n == 1 ==> b.base.int_mask == b.base.int_clear
        }),
{
}

/// A status look: no bit set means the batch still runs; a bit it waits
/// for completes it with exactly the expected bits that are set; only bits
/// it does not wait for fault it.
pub proof fn law_wait_step_cases(status: u32, int_mask: u32)
    ensures
        status & int_mask == 0 && status == 0 ==> spec_wait_step(status, int_mask) == WaitStep::Pending,
        status & int_mask != 0 ==> spec_wait_step(status, int_mask) == WaitStep::Done(int_mask & status),
        status != 0 && status & int_mask == 0 ==> spec_wait_step(status, int_mask) == WaitStep::Fault,
{
}

/// Describe the batch of tasks `first .. first + n` on core `idx`.
pub fn batch_ref(flags: u32, task_dma: u64, idx: usize, tasks: &Vec<RknpuTask>, first: usize, n: usize) -> (b: SubmitRef)
    requires
        n > 0,
        first + n <= tasks.len(),
    ensures
        b == spec_batch_ref(flags, task_dma, idx, tasks@, first as int, n),
{
    let head = tasks[first];
    let last = tasks[first + (n - 1)];
    SubmitRef {
        base: SubmitBase {
            flags: JobMode::from_bits_retain(flags),
            task_array_dma_address: task_dma as u32,
            core_idx: idx,
            int_mask: last.int_mask,
            int_clear: head.int_mask,
            regcfg_amount: head.regcfg_amount,
        },
        task_number: n,
        regcmd_base_addr: head.regcmd_addr as u32,
    }
}

impl RknpuCore {
    /// Start a batch: drain leftover interrupts so that none is attributed
    /// to it, clear the published status, and program the PC block.
    pub fn start_batch(&mut self, shared: &mut RknpuSharedState, data: &RknpuData, batch: &SubmitRef)
        requires
            old(self).wf(),
            old(shared).wf(),
            data.wf(),
            batch.base.regcfg_amount + RKNPU_PC_DATA_EXTRA_AMOUNT <= u32::MAX,
        ensures
            final(self).wf(),
            final(shared).wf(),
            final(self).core_slot == old(self).core_slot,
            final(self).irq_status == 0,
            final(shared).active_bindings@ == old(shared).active_bindings@,
            irq_effect(
                old(shared).task_npu_state@,
                final(shared).task_npu_state@,
                old(shared).binding_of(old(self).core_slot as int),
                spec_fuzz_status(window_word(old(self).mmio@, 0x28)),
                spec_register_snapshot(old(self).mmio@),
            ),
            final(self).mmio@ == pc_program_window(
                interrupt_cleared(
                    irq_taken_window(
                        old(self).mmio@,
                        old(shared).task_npu_state@,
                        old(shared).binding_of(old(self).core_slot as int),
                        final(shared).task_npu_state@,
                    ),
                    INT_CLEAR_ALL,
                ),
                *data,
                *batch,
            ),
    {
        self.drain_pending_interrupts(shared);
        self.irq_status = 0;
        let _ = self.submit_pc(data, batch);
    }

    /// Finish a batch: clear its interrupts, reset the published status and
    /// store what completed in the batch's last task.
    pub fn finish_batch(&mut self, last_task: &mut RknpuTask, int_status: u32)
        requires
            old(self).wf(),
        ensures
            final(self).wf(),
            final(self).core_slot == old(self).core_slot,
            final(self).irq_status == 0,
            final(self).mmio@ == interrupt_cleared(old(self).mmio@, INT_CLEAR_ALL),
            *final(last_task) == (RknpuTask { int_status, ..*old(last_task) }),
    {
        self.clean_interrupts();
        self.irq_status = 0;
        last_task.int_status = int_status;
    }

    /// The fuzzed interrupt status of the window, for busy polling.
    pub fn poll_status(&self) -> (s: u32)
        requires
            self.wf(),
        ensures
            s == spec_fuzz_status(window_word(self.mmio@, 0x28)),
    {
        crate::interrupt::rknpu_fuzz_status(self.read_mmio_u32(crate::registers::PC_INTERRUPT_STATUS_OFFSET))
    }
}

} // verus!
