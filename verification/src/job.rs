//! Hardware limits, job flags and the task descriptor consumed by the PC block.
use vstd::prelude::*;

verus! {

/// Maximum number of hardware cores supported by the RK3588 NPU IP.
pub const RKNPU_MAX_CORES: usize = 3;

/// Maximum number of per-core task ranges accepted by one submit ioctl.
pub const RKNPU_MAX_SUBCORE_TASKS: usize = 5;

/// Let the driver pick a suitable core automatically.
pub const RKNPU_CORE_AUTO_MASK: u32 = 0x00;
/// Select core 0, which always exists.
pub const RKNPU_CORE0_MASK: u32 = 0x01;
/// Select core 1 when available.
pub const RKNPU_CORE1_MASK: u32 = 0x02;
/// Select core 2 when available.
pub const RKNPU_CORE2_MASK: u32 = 0x04;

/// Run in PC mode, where the hardware command parser fetches register commands.
pub const RKNPU_JOB_PC: u32 = 0x1;
/// Return immediately without waiting for the NPU to finish.
pub const RKNPU_JOB_NONBLOCK: u32 = 0x2;
/// Enable ping-pong buffering to overlap DMA and compute.
pub const RKNPU_JOB_PINGPONG: u32 = 0x4;
/// Wait on an external fence before execution starts.
pub const RKNPU_JOB_FENCE_IN: u32 = 0x8;
/// Signal an external fence when execution completes.
pub const RKNPU_JOB_FENCE_OUT: u32 = 0x10;

/// Hardware task descriptor consumed by the PC block.
///
/// The PC engine DMA-reads an array of these descriptors. For each entry it
/// loads `regcfg_amount` 64-bit register commands from `regcmd_addr`, programs
/// the pipeline, and waits for the interrupt bits described by `int_mask`.
#[derive(Clone, Copy, Debug, Default, PartialEq, Eq, Structural)]
pub struct RknpuTask {
    /// Per-task job flags, usually copied from `RKNPU_JOB_*`.
    pub flags: u32,
    /// Operation index inside the compiled model graph.
    pub op_idx: u32,
    /// Bitmask of hardware blocks enabled for the task.
    pub enable_mask: u32,
    /// Interrupt bits the driver should wait for after launching the task.
    pub int_mask: u32,
    /// Bits written to `INTERRUPT_CLEAR` before the task starts.
    pub int_clear: u32,
    /// Actual interrupt status observed on completion.
    pub int_status: u32,
    /// Number of 64-bit register commands to DMA-read for the task.
    pub regcfg_amount: u32,
    /// Byte offset of the task's command stream inside a shared buffer.
    pub regcfg_offset: u32,
    /// DMA address of the task's register-command buffer.
    pub regcmd_addr: u64,
}

/// Range of tasks assigned to one logical subcore slot.
#[derive(Debug, Clone, Copy, Default, PartialEq, Eq, Structural)]
pub struct RknpuSubcoreTask {
    /// Index of the first task in the task array.
    pub task_start: u32,
    /// Number of contiguous tasks starting at `task_start`.
    pub task_number: u32,
}

/// Legacy software-driven mode (no bit set).
pub const JOB_MODE_SLAVE: u32 = 0x0;
/// Use the hardware command parser.
pub const JOB_MODE_PC: u32 = 0x1;
/// Wait synchronously for completion (no bit set).
pub const JOB_MODE_BLOCK: u32 = 0x0;
/// Return early and rely on a fence later.
pub const JOB_MODE_NONBLOCK: u32 = 0x2;
/// Enable double-buffered execution.
pub const JOB_MODE_PINGPONG: u32 = 0x4;
/// Wait on an input fence.
pub const JOB_MODE_FENCE_IN: u32 = 0x8;
/// Signal an output fence.
pub const JOB_MODE_FENCE_OUT: u32 = 0x10;

/// Internal job-mode flags, a thin set of bits over `u32`.
#[derive(Clone, Copy, Debug, PartialEq, Eq, Structural)]
pub struct JobMode {
    pub bits: u32,
}

impl JobMode {
    /// Wrap raw bits, keeping any bit that has no name.
    pub fn from_bits_retain(bits: u32) -> (m: JobMode)
        ensures
            m.bits == bits,
    {
        JobMode { bits }
    }

    /// The raw bits of this flag set.
    pub fn bits(&self) -> (b: u32)
        ensures
            b == self.bits,
    {
        self.bits
    }

    /// True when every bit of `other` is also set in `self`.
    pub fn contains(&self, other: JobMode) -> (b: bool)
        ensures
            b == (self.bits & other.bits == other.bits),
    {
        self.bits & other.bits == other.bits
    }

    /// The union of two flag sets.
    pub fn union(self, other: JobMode) -> (m: JobMode)
        ensures
            m.bits == self.bits | other.bits,
    {
        JobMode { bits: self.bits | other.bits }
    }
}

/// The selection bit of a core index (zero for an index past the last core).
pub open spec fn spec_core_mask_from_index(index: int) -> u32 {
    if index == 0 {
        RKNPU_CORE0_MASK
    } else if index == 1 {
        RKNPU_CORE1_MASK
    } else if index == 2 {
        RKNPU_CORE2_MASK
    } else {
        0
    }
}

/// Convert a core index into its corresponding selection bit.
pub fn core_mask_from_index(index: usize) -> (m: u32)
    ensures
        m == spec_core_mask_from_index(index as int),
{
    match index {
        0 => RKNPU_CORE0_MASK,
        1 => RKNPU_CORE1_MASK,
        2 => RKNPU_CORE2_MASK,
        _ => 0,
    }
}

/// Number of set bits among the lowest `n` bits of `x`.
pub open spec fn popcount_low(x: u32, n: nat) -> nat
    decreases n,
{
    if n == 0 {
        0
    } else {
        popcount_low(x, (n - 1) as nat) + (if (x >> ((n - 1) as u32)) & 1 == 1 { 1nat } else { 0nat })
    }
}

/// Number of set bits of `x`.
pub open spec fn popcount(x: u32) -> nat {
    popcount_low(x, 32)
}

/// Count how many cores are selected in a core-mask bitfield.
pub fn core_count_from_mask(mask: u32) -> (c: u32)
    ensures
        c == popcount(mask),
{
    let mut count: u32 = 0;
    let mut i: u32 = 0;
    while i < 32
        invariant
            i <= 32,
            count == popcount_low(mask, i as nat),
            count <= i,
        decreases 32 - i,
    {
        if (mask >> i) & 1 == 1 {
            count = count + 1;
        }
        i = i + 1;
    }
    count
}

/// The low `n` bits of the word with only bit `j` set hold one set bit
/// exactly when they reach bit `j`.
pub proof fn lemma_popcount_single_bit(j: u32, n: nat)
    requires
        j < 32,
        n <= 32,
    ensures
        popcount_low(1u32 << j, n) == (if n > j { 1nat } else { 0nat }),
    decreases n,
{
    if n > 0 {
        lemma_popcount_single_bit(j, (n - 1) as nat);
        let k = (n - 1) as u32;
        assert((((1u32 << j) >> k) & 1 == 1) == (k == j)) by (bit_vector)
            requires
                j < 32 && k < 32,
        ;
    }
}

/// The selection bit of each of the three cores selects exactly one core;
/// an index past the last core selects none.
pub proof fn law_core_mask_selects_one(index: int)
    ensures
        popcount(spec_core_mask_from_index(index)) == (if 0 <= index < 3 { 1nat } else { 0nat }),
{
    assert(RKNPU_CORE0_MASK == 1u32 << 0u32 && RKNPU_CORE1_MASK == 1u32 << 1u32 && RKNPU_CORE2_MASK == 1u32
        << 2u32) by (bit_vector);
    if index == 0 {
        lemma_popcount_single_bit(0, 32);
    } else if index == 1 {
        lemma_popcount_single_bit(1, 32);
    } else if index == 2 {
        lemma_popcount_single_bit(2, 32);
    } else {
        lemma_popcount_zero(32);
    }
}

/// The empty word has no set bit.
pub proof fn lemma_popcount_zero(n: nat)
    ensures
        popcount_low(0, n) == 0,
    decreases n,
{
    if n > 0 {
        lemma_popcount_zero((n - 1) as nat);
        let k = (n - 1) as u32;
        assert((0u32 >> k) & 1 == 0) by (bit_vector);
    }
}

} // verus!
