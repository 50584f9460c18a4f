//! Completion records and the per-core state snapshots kept at IRQ boundaries.
use vstd::prelude::*;

verus! {

/// RK3588 RKNPU currently supports up to three hardware cores.
pub const NPU_MAX_CORES: usize = 3;

/// Marker of an unused core or subcore slot.
pub const INVALID_CORE_SLOT: u8 = 0xff;

/// One raw completion harvested from one hardware core.
#[derive(Debug, Clone, Copy, PartialEq, Eq, Structural)]
pub struct CoreCompletion {
    pub core_slot: u8,
    pub observed_irq_status: u32,
}

/// The task, process and address space that own an NPU context.
#[derive(Debug, Clone, Copy, Default, PartialEq, Eq, PartialOrd, Ord, Structural)]
pub struct NpuOwnerIds {
    pub task_id: u64,
    pub process_id: u64,
    pub address_space_id: u64,
}

/// Coarse phase of one saved NPU context.
#[derive(Debug, Clone, Copy, PartialEq, Eq, Structural)]
pub enum NpuCtxState {
    /// Not bound to any submit yet.
    Empty,
    /// Built but not started on hardware.
    Prepared,
    /// The NPU is running the context's task stream.
    Running,
    /// A save was requested at the next IRQ boundary.
    WaitingIrqBoundary,
    /// The IRQ boundary was reached.
    BoundaryReady,
    /// All state needed to resume is saved.
    Saved,
    /// The saved state is being reloaded.
    Resuming,
    /// The task stream finished.
    Completed,
    /// The task stream faulted.
    Faulted,
    /// A timeout or reset lost the task stream.
    ResetLost,
}

impl NpuCtxState {
    /// The empty phase.
    pub fn default_state() -> (s: NpuCtxState)
        ensures
            s == NpuCtxState::Empty,
    {
        NpuCtxState::Empty
    }
}

/// Submit-level batch progress cursors.
#[derive(Debug, Clone, Copy, PartialEq, Eq, Structural)]
pub struct NpuBatchProgress {
    pub task_iter: u32,
    pub task_iter_end: u32,
    pub current_batch_start: u32,
    pub current_batch_count: u32,
    pub completed_task_count: u32,
    pub remaining_task_count: u32,
}

impl NpuBatchProgress {
    /// The all-zero snapshot.
    pub fn zeroed() -> (r: NpuBatchProgress)
        ensures
            r == (NpuBatchProgress { task_iter: 0, task_iter_end: 0, current_batch_start: 0, current_batch_count: 0, completed_task_count: 0, remaining_task_count: 0 }),
    {
        NpuBatchProgress { task_iter: 0, task_iter_end: 0, current_batch_start: 0, current_batch_count: 0, completed_task_count: 0, remaining_task_count: 0 }
    }
}

/// Task-level register snapshot of the PC block.
#[derive(Debug, Clone, Copy, PartialEq, Eq, Structural)]
pub struct NpuPcRegisterSnapshot {
    pub operation_enable: u32,
    pub base_address: u32,
    pub register_amounts: u32,
    pub interrupt_mask: u32,
    pub interrupt_status: u32,
    pub interrupt_raw_status: u32,
    pub task_con: u32,
    pub task_dma_base_addr: u32,
    pub task_status: u32,
}

impl NpuPcRegisterSnapshot {
    /// The all-zero snapshot.
    pub fn zeroed() -> (r: NpuPcRegisterSnapshot)
        ensures
            r == (NpuPcRegisterSnapshot { operation_enable: 0, base_address: 0, register_amounts: 0, interrupt_mask: 0, interrupt_status: 0, interrupt_raw_status: 0, task_con: 0, task_dma_base_addr: 0, task_status: 0 }),
    {
        NpuPcRegisterSnapshot { operation_enable: 0, base_address: 0, register_amounts: 0, interrupt_mask: 0, interrupt_status: 0, interrupt_raw_status: 0, task_con: 0, task_dma_base_addr: 0, task_status: 0 }
    }
}

/// Ping-pong register snapshot of one compute or DMA block.
#[derive(Debug, Clone, Copy, PartialEq, Eq, Structural)]
pub struct NpuBlockRegisterSnapshot {
    pub s_status: u32,
    pub s_pointer: u32,
    pub operation_enable: u32,
}

impl NpuBlockRegisterSnapshot {
    /// The all-zero snapshot.
    pub fn zeroed() -> (r: NpuBlockRegisterSnapshot)
        ensures
            r == (NpuBlockRegisterSnapshot { s_status: 0, s_pointer: 0, operation_enable: 0 }),
    {
        NpuBlockRegisterSnapshot { s_status: 0, s_pointer: 0, operation_enable: 0 }
    }
}

/// Snapshot of the GLOBAL block.
#[derive(Debug, Clone, Copy, PartialEq, Eq, Structural)]
pub struct NpuGlobalRegisterSnapshot {
    pub operation_enable: u32,
}

impl NpuGlobalRegisterSnapshot {
    /// The all-zero snapshot.
    pub fn zeroed() -> (r: NpuGlobalRegisterSnapshot)
        ensures
            r == (NpuGlobalRegisterSnapshot { operation_enable: 0 }),
    {
        NpuGlobalRegisterSnapshot { operation_enable: 0 }
    }
}

/// Register closure of one hardware core.
#[derive(Debug, Clone, Copy, PartialEq, Eq, Structural)]
pub struct NpuCoreRegisterSnapshot {
    pub pc: NpuPcRegisterSnapshot,
    pub cna: NpuBlockRegisterSnapshot,
    pub mac: NpuBlockRegisterSnapshot,
    pub dpu: NpuBlockRegisterSnapshot,
    pub dpu_rdma: NpuBlockRegisterSnapshot,
    pub ppu: NpuBlockRegisterSnapshot,
    pub ppu_rdma: NpuBlockRegisterSnapshot,
    pub global: NpuGlobalRegisterSnapshot,
}

/// The snapshot with every register zero.
pub open spec fn zero_core_snapshot() -> NpuCoreRegisterSnapshot {
    let b = NpuBlockRegisterSnapshot { s_status: 0, s_pointer: 0, operation_enable: 0 };
    NpuCoreRegisterSnapshot {
        pc: NpuPcRegisterSnapshot { operation_enable: 0, base_address: 0, register_amounts: 0, interrupt_mask: 0, interrupt_status: 0, interrupt_raw_status: 0, task_con: 0, task_dma_base_addr: 0, task_status: 0 },
        cna: b,
        mac: b,
        dpu: b,
        dpu_rdma: b,
        ppu: b,
        ppu_rdma: b,
        global: NpuGlobalRegisterSnapshot { operation_enable: 0 },
    }
}

impl NpuCoreRegisterSnapshot {
    /// The all-zero snapshot.
    pub fn zeroed() -> (r: NpuCoreRegisterSnapshot)
        ensures
            r == zero_core_snapshot(),
    {
        NpuCoreRegisterSnapshot {
            pc: NpuPcRegisterSnapshot::zeroed(),
            cna: NpuBlockRegisterSnapshot::zeroed(),
            mac: NpuBlockRegisterSnapshot::zeroed(),
            dpu: NpuBlockRegisterSnapshot::zeroed(),
            dpu_rdma: NpuBlockRegisterSnapshot::zeroed(),
            ppu: NpuBlockRegisterSnapshot::zeroed(),
            ppu_rdma: NpuBlockRegisterSnapshot::zeroed(),
            global: NpuGlobalRegisterSnapshot::zeroed(),
        }
    }
}

/// Driver-side state of one core while it runs part of a submit.
#[derive(Debug, Clone, Copy, PartialEq, Eq, Structural)]
pub struct NpuCoreDriverStatus {
    /// Hardware core slot.
    pub core_slot: u8,
    /// The `subcore_task[]` slot served.
    pub subcore_slot: u8,
    pub enabled: bool,
    pub inflight: bool,
    pub waiting_irq: bool,
    pub irq_seen: bool,
    pub irq_cleared: bool,
    pub boundary_ready: bool,
    pub faulted: bool,
    pub current_task_index: u32,
    pub batch_task_start: u32,
    pub batch_task_count: u32,
    pub completed_task_count: u32,
    pub remaining_task_count: u32,
    pub expected_int_mask: u32,
    pub observed_irq_status: u32,
    pub last_task_int_status: u32,
    /// Task-level hardware register snapshot.
    pub regs: NpuCoreRegisterSnapshot,
}

/// The status of a core that serves nothing.
pub open spec fn idle_core_status() -> NpuCoreDriverStatus {
    NpuCoreDriverStatus {
        core_slot: INVALID_CORE_SLOT,
        subcore_slot: INVALID_CORE_SLOT,
        enabled: false,
        inflight: false,
        waiting_irq: false,
        irq_seen: false,
        irq_cleared: false,
        boundary_ready: false,
        faulted: false,
        current_task_index: 0,
        batch_task_start: 0,
        batch_task_count: 0,
        completed_task_count: 0,
        remaining_task_count: 0,
        expected_int_mask: 0,
        observed_irq_status: 0,
        last_task_int_status: 0,
        regs: zero_core_snapshot(),
    }
}

impl Default for NpuCoreDriverStatus {
    fn default() -> (r: NpuCoreDriverStatus)
        ensures
            r == idle_core_status(),
    {
        NpuCoreDriverStatus {
            core_slot: INVALID_CORE_SLOT,
            subcore_slot: INVALID_CORE_SLOT,
            enabled: false,
            inflight: false,
            waiting_irq: false,
            irq_seen: false,
            irq_cleared: false,
            boundary_ready: false,
            faulted: false,
            current_task_index: 0,
            batch_task_start: 0,
            batch_task_count: 0,
            completed_task_count: 0,
            remaining_task_count: 0,
            expected_int_mask: 0,
            observed_irq_status: 0,
            last_task_int_status: 0,
            regs: NpuCoreRegisterSnapshot::zeroed(),
        }
    }
}

/// Driver-side closure of one task stream, beside its submit header.
#[derive(Debug, Clone, Copy, PartialEq, Eq)]
pub struct NPUDriverStatus {
    pub ctx_state: NpuCtxState,
    pub savepoint_valid: bool,
    pub can_resume: bool,
    pub owner_task_id: u64,
    pub owner_process_id: u64,
    pub owner_address_space_id: u64,
    pub iommu_domain_id: u32,
    pub core_mask: u32,
    pub active_core_count: u8,
    pub wait_start_idx: u8,
    pub running_core_mask: u32,
    pub waiting_core_mask: u32,
    pub irq_done_core_mask: u32,
    pub task_counter_snapshot: u32,
    pub hw_elapse_time_snapshot: i64,
    pub batch: NpuBatchProgress,
    pub cores: [NpuCoreDriverStatus; 3],
}

impl Default for NPUDriverStatus {
    fn default() -> (r: NPUDriverStatus)
        ensures
            r.ctx_state == NpuCtxState::Empty,
            !r.savepoint_valid && !r.can_resume,
            r.owner_task_id == 0 && r.owner_process_id == 0 && r.owner_address_space_id == 0,
            r.iommu_domain_id == 0 && r.core_mask == 0 && r.active_core_count == 0,
            r.wait_start_idx == 0 && r.running_core_mask == 0 && r.waiting_core_mask == 0,
            r.irq_done_core_mask == 0 && r.task_counter_snapshot == 0,
            r.hw_elapse_time_snapshot == 0,
            r.batch == (NpuBatchProgress { task_iter: 0, task_iter_end: 0, current_batch_start: 0, current_batch_count: 0, completed_task_count: 0, remaining_task_count: 0 }),
            forall|i: int| 0 <= i < 3 ==> #[trigger] r.cores[i] == idle_core_status(),
    {
        NPUDriverStatus {
            ctx_state: NpuCtxState::Empty,
            savepoint_valid: false,
            can_resume: false,
            owner_task_id: 0,
            owner_process_id: 0,
            owner_address_space_id: 0,
            iommu_domain_id: 0,
            core_mask: 0,
            active_core_count: 0,
            wait_start_idx: 0,
            running_core_mask: 0,
            waiting_core_mask: 0,
            irq_done_core_mask: 0,
            task_counter_snapshot: 0,
            hw_elapse_time_snapshot: 0,
            batch: NpuBatchProgress::zeroed(),
            cores: [
                NpuCoreDriverStatus::default(),
                NpuCoreDriverStatus::default(),
                NpuCoreDriverStatus::default(),
            ],
        }
    }
}

/// One task-window register write that can be replayed at an IRQ boundary.
#[derive(Debug, Clone, Copy, Default, PartialEq, Eq, Structural)]
pub struct NpuTaskRegisterWrite {
    /// Block part of the regcmd opcode.
    pub block: u16,
    /// Absolute register offset.
    pub offset: u16,
    /// Task configuration value to write back.
    pub value: u32,
}

/// Restorable register image of one core.
#[derive(Debug, Clone, PartialEq, Eq)]
pub struct NpuCoreRestoreImage {
    pub pc_operation_enable: u32,
    pub pc_base_address: u32,
    pub pc_register_amounts: u32,
    pub pc_interrupt_mask: u32,
    pub pc_task_con: u32,
    pub pc_task_dma_base_addr: u32,
    pub cna_s_pointer: u32,
    pub mac_s_pointer: u32,
    pub dpu_s_pointer: u32,
    pub dpu_rdma_s_pointer: u32,
    pub ppu_s_pointer: u32,
    pub ppu_rdma_s_pointer: u32,
    pub cna_operation_enable: u32,
    pub mac_operation_enable: u32,
    pub dpu_operation_enable: u32,
    pub dpu_rdma_operation_enable: u32,
    pub ppu_operation_enable: u32,
    pub ppu_rdma_operation_enable: u32,
    pub global_operation_enable: u32,
    pub unsafe_snapshot: bool,
    pub task_shadow_writes: Vec<NpuTaskRegisterWrite>,
}

/// Every scalar and operation enable of the image is zero, it is not marked
/// unsafe and it keeps no task-window write.
pub open spec fn zero_restore_image(r: NpuCoreRestoreImage) -> bool {
    &&& r.pc_operation_enable == 0
    &&& r.pc_base_address == 0
    &&& r.pc_register_amounts == 0
    &&& r.pc_interrupt_mask == 0
    &&& r.pc_task_con == 0
    &&& r.pc_task_dma_base_addr == 0
    &&& r.cna_s_pointer == 0
    &&& r.mac_s_pointer == 0
    &&& r.dpu_s_pointer == 0
    &&& r.dpu_rdma_s_pointer == 0
    &&& r.ppu_s_pointer == 0
    &&& r.ppu_rdma_s_pointer == 0
    &&& r.cna_operation_enable == 0
    &&& r.mac_operation_enable == 0
    &&& r.dpu_operation_enable == 0
    &&& r.dpu_rdma_operation_enable == 0
    &&& r.ppu_operation_enable == 0
    &&& r.ppu_rdma_operation_enable == 0
    &&& r.global_operation_enable == 0
    &&& !r.unsafe_snapshot
    &&& r.task_shadow_writes@.len() == 0
}

impl Default for NpuCoreRestoreImage {
    fn default() -> (r: NpuCoreRestoreImage)
        ensures
            zero_restore_image(r),
    {
        NpuCoreRestoreImage {
            pc_operation_enable: 0,
            pc_base_address: 0,
            pc_register_amounts: 0,
            pc_interrupt_mask: 0,
            pc_task_con: 0,
            pc_task_dma_base_addr: 0,
            cna_s_pointer: 0,
            mac_s_pointer: 0,
            dpu_s_pointer: 0,
            dpu_rdma_s_pointer: 0,
            ppu_s_pointer: 0,
            ppu_rdma_s_pointer: 0,
            cna_operation_enable: 0,
            mac_operation_enable: 0,
            dpu_operation_enable: 0,
            dpu_rdma_operation_enable: 0,
            ppu_operation_enable: 0,
            ppu_rdma_operation_enable: 0,
            global_operation_enable: 0,
            unsafe_snapshot: false,
            task_shadow_writes: Vec::new(),
        }
    }
}

/// Key of the latest IRQ-boundary snapshot: owner and core.
#[derive(Debug, Clone, Copy, Default, PartialEq, Eq, PartialOrd, Ord, Structural)]
pub struct TaskNpuStateKey {
    pub owner: NpuOwnerIds,
    pub core_slot: u8,
}

/// The owner/batch/task currently bound to one hardware core.
#[derive(Debug, Clone, Copy, PartialEq, Eq, Structural)]
pub struct ActiveCoreBinding {
    pub key: TaskNpuStateKey,
    pub subcore_slot: u8,
    pub batch_task_start: u32,
    pub batch_task_count: u32,
    pub current_task_index: u32,
    pub expected_irq_mask: u32,
}

impl Default for ActiveCoreBinding {
    fn default() -> (r: ActiveCoreBinding)
        ensures
            r.key == (TaskNpuStateKey {
                owner: NpuOwnerIds { task_id: 0, process_id: 0, address_space_id: 0 },
                core_slot: INVALID_CORE_SLOT,
            }),
            r.subcore_slot == INVALID_CORE_SLOT,
            r.batch_task_start == 0 && r.batch_task_count == 0,
            r.current_task_index == 0 && r.expected_irq_mask == 0,
    {
        ActiveCoreBinding {
            key: TaskNpuStateKey {
                owner: NpuOwnerIds { task_id: 0, process_id: 0, address_space_id: 0 },
                core_slot: INVALID_CORE_SLOT,
            },
            subcore_slot: INVALID_CORE_SLOT,
            batch_task_start: 0,
            batch_task_count: 0,
            current_task_index: 0,
            expected_irq_mask: 0,
        }
    }
}

/// Latest task-level snapshot kept per owner and core.
#[derive(Debug, Clone, PartialEq, Eq)]
pub struct TaskNpuState {
    pub key: TaskNpuStateKey,
    pub subcore_slot: u8,
    pub batch_task_start: u32,
    pub batch_task_count: u32,
    pub current_task_index: u32,
    pub expected_irq_mask: u32,
    pub observed_irq_status: u32,
    pub last_task_int_status: u32,
    pub regs: NpuCoreRegisterSnapshot,
    pub restore_image: NpuCoreRestoreImage,
    pub restore_verified: bool,
    pub restore_mismatch_mask: u64,
}

/// `s` is a fresh state for `key`: nothing bound, observed or recorded.
pub open spec fn fresh_task_state(s: TaskNpuState, key: TaskNpuStateKey) -> bool {
    &&& s.key == key
    &&& s.subcore_slot == 0
    &&& s.batch_task_start == 0 && s.batch_task_count == 0
    &&& s.current_task_index == 0 && s.expected_irq_mask == 0
    &&& s.observed_irq_status == 0 && s.last_task_int_status == 0
    &&& s.regs == zero_core_snapshot()
    &&& zero_restore_image(s.restore_image)
    &&& !s.restore_verified
    &&& s.restore_mismatch_mask == 0
}

impl Default for TaskNpuState {
    fn default() -> (s: TaskNpuState)
        ensures
            fresh_task_state(
                s,
                TaskNpuStateKey {
                    owner: NpuOwnerIds { task_id: 0, process_id: 0, address_space_id: 0 },
                    core_slot: 0,
                },
            ),
    {
        TaskNpuState {
            key: TaskNpuStateKey {
                owner: NpuOwnerIds { task_id: 0, process_id: 0, address_space_id: 0 },
                core_slot: 0,
            },
            subcore_slot: 0,
            batch_task_start: 0,
            batch_task_count: 0,
            current_task_index: 0,
            expected_irq_mask: 0,
            observed_irq_status: 0,
            last_task_int_status: 0,
            regs: NpuCoreRegisterSnapshot::zeroed(),
            restore_image: NpuCoreRestoreImage::default(),
            restore_verified: false,
            restore_mismatch_mask: 0,
        }
    }
}

} // verus!
