//! Userspace-facing ioctl payloads of the NPU driver.
use vstd::prelude::*;

verus! {

/// Per-core task range passed in from userspace.
#[derive(Debug, Clone, Copy, Default, PartialEq, Eq, Structural)]
pub struct RknpuSubcoreTask {
    /// Index of the first task assigned to this core slot.
    pub task_start: u32,
    /// Number of contiguous tasks assigned to this core slot.
    pub task_number: u32,
}

/// Parameters used to map a GEM buffer into userspace via `mmap`.
#[derive(Debug, Clone, Copy, Default)]
pub struct RknpuMemMap {
    /// GEM object handle returned by `MEM_CREATE`.
    pub handle: u32,
    /// Reserved padding for 64-bit alignment.
    pub reserved: u32,
    /// Driver-provided pseudo file offset suitable for `mmap()`.
    pub offset: u64,
}

/// Parameters for destroying one DMA buffer (GEM object).
#[derive(Debug, Clone, Copy, Default)]
pub struct RknpuMemDestroy {
    /// GEM object handle previously returned by `MEM_CREATE`.
    pub handle: u32,
    /// Reserved padding for 64-bit alignment.
    pub reserved: u32,
    /// CPU virtual address of the memory object (ABI compatibility only).
    pub obj_addr: u64,
}

/// Main task-submission ioctl structure.
#[derive(Debug, Clone, Copy)]
pub struct RknpuSubmit {
    /// Job-mode flags.
    pub flags: u32,
    /// Maximum wait time before timing out, in milliseconds.
    pub timeout: u32,
    /// Legacy global task-start index, superseded by `subcore_task[]`.
    pub task_start: u32,
    /// Total number of tasks across all cores.
    pub task_number: u32,
    /// Filled by the driver with the number of completed tasks.
    pub task_counter: u32,
    /// Scheduling priority hint. Lower values mean higher priority.
    pub priority: i32,
    /// CPU virtual address of the `RknpuTask[]` array.
    pub task_array_cpu_address: u64,
    /// IOMMU domain identifier used for address translation.
    pub iommu_domain_id: u32,
    /// Reserved field kept for ABI compatibility.
    pub reserved: u32,
    /// DMA or bus address of the `RknpuTask[]` array.
    pub task_array_dma_address: u64,
    /// Filled by the driver with a hardware execution-time estimate.
    pub hw_elapse_time: i64,
    /// Bitmask selecting which NPU cores may be used.
    pub core_mask: u32,
    /// Fence file descriptor for external synchronization.
    pub fence_fd: i32,
    /// Task range per logical core slot; empty entries are skipped.
    pub subcore_task: [RknpuSubcoreTask; 5],
}

impl Default for RknpuSubmit {
    fn default() -> (s: RknpuSubmit)
        ensures
            s.flags == 0 && s.timeout == 0 && s.task_start == 0 && s.task_number == 0,
            s.task_counter == 0 && s.priority == 0 && s.task_array_cpu_address == 0,
            s.iommu_domain_id == 0 && s.reserved == 0 && s.task_array_dma_address == 0,
            s.hw_elapse_time == 0 && s.core_mask == 0 && s.fence_fd == 0,
            forall|i: int|
                0 <= i < 5 ==> s.subcore_task[i] == (RknpuSubcoreTask { task_start: 0, task_number: 0 }),
    {
        let empty = RknpuSubcoreTask { task_start: 0, task_number: 0 };
        RknpuSubmit {
            flags: 0,
            timeout: 0,
            task_start: 0,
            task_number: 0,
            task_counter: 0,
            priority: 0,
            task_array_cpu_address: 0,
            iommu_domain_id: 0,
            reserved: 0,
            task_array_dma_address: 0,
            hw_elapse_time: 0,
            core_mask: 0,
            fence_fd: 0,
            subcore_task: [empty, empty, empty, empty, empty],
        }
    }
}

/// Ioctl structure used to allocate a DMA-visible buffer.
#[derive(Debug, Clone, Copy, Default)]
pub struct RknpuMemCreate {
    /// Opaque handle returned by the driver.
    pub handle: u32,
    /// Memory type or caching flags.
    pub flags: u32,
    /// Requested allocation size in bytes.
    pub size: u64,
    /// CPU virtual address of the allocation.
    pub obj_addr: u64,
    /// DMA or bus address used by the NPU.
    pub dma_addr: u64,
    /// Actual allocated size.
    pub sram_size: u64,
    /// IOMMU domain used for isolation.
    pub iommu_domain_id: i32,
    /// Reserved or advisory core-mask field.
    pub core_mask: u32,
}

/// Ioctl structure used to synchronize a DMA buffer range.
#[derive(Debug, Clone, Copy, Default)]
pub struct RknpuMemSync {
    /// Direction flags such as `TO_DEVICE` or `FROM_DEVICE`.
    pub flags: u32,
    /// Reserved padding for 64-bit alignment.
    pub reserved: u32,
    /// CPU virtual address of the buffer to synchronize.
    pub obj_addr: u64,
    /// Byte offset into the buffer.
    pub offset: u64,
    /// Number of bytes to synchronize.
    pub size: u64,
}

} // verus!
