//! Submit/lane state machine of the blocking-submit scheduler.
//!
//! One queued submit tracks, per logical lane, how many tasks that lane has
//! already completed (its cursor) and whether it currently owns a hardware
//! core. Ready/running/complete classification is derived from those fields
//! and the last recorded error.
use vstd::prelude::*;
use crate::err::RknpuError;
use crate::ioctrl::{RknpuSubcoreTask, RknpuSubmit};
use crate::job::{RknpuTask, RKNPU_MAX_SUBCORE_TASKS, core_mask_from_index, spec_core_mask_from_index};

verus! {

/// Unique identifier assigned to one queued blocking submit.
pub type RknpuQueueTaskId = u64;

/// `a + b` saturated at `u32::MAX`.
pub open spec fn sat_add_u32(a: u32, b: u32) -> u32 {
    if a + b > u32::MAX {
        u32::MAX
    } else {
        (a + b) as u32
    }
}

/// Sum of the task numbers of the first `n` lanes.
pub open spec fn lane_task_sum(lanes: Seq<RknpuSubcoreTask>, n: nat) -> int
    decreases n,
{
    if n == 0 {
        0
    } else {
        lane_task_sum(lanes, (n - 1) as nat) + lanes[n - 1].task_number
    }
}

/// Sum of the first `n` lane cursors.
pub open spec fn cursor_sum(cursors: Seq<u32>, n: nat) -> int
    decreases n,
{
    if n == 0 {
        0
    } else {
        cursor_sum(cursors, (n - 1) as nat) + cursors[n - 1]
    }
}

/// True when no lane carries any task.
pub open spec fn lanes_all_empty(lanes: Seq<RknpuSubcoreTask>) -> bool {
    forall|i: int| 0 <= i < lanes.len() ==> #[trigger] lanes[i].task_number == 0
}

/// The lane layout kept by the scheduler: the submitted one, except that an
/// entirely empty layout becomes a single lane 0 covering every task.
pub open spec fn normalized_lanes(lanes: Seq<RknpuSubcoreTask>, task_total: u32) -> Seq<
    RknpuSubcoreTask,
> {
    if lanes_all_empty(lanes) && task_total > 0 {
        lanes.update(0, RknpuSubcoreTask { task_start: 0, task_number: task_total })
    } else {
        lanes
    }
}

/// Immutable scheduler-facing metadata derived from one submit ioctl.
#[derive(Debug, Clone, Copy, PartialEq, Eq)]
pub struct SubmitMeta {
    /// Job-mode flags copied from `RknpuSubmit.flags`.
    pub flags: u32,
    /// Scheduler priority. Lower value means higher priority.
    pub priority: i32,
    /// Allowed hardware-core mask. Zero means "no restriction".
    pub core_mask: u32,
    /// DMA base of the task descriptor array as seen by the NPU.
    pub task_array_dma_address: u64,
    /// Normalized per-lane task layout.
    pub lane_ranges: [RknpuSubcoreTask; 5],
    /// Total number of task descriptors.
    pub task_total: u32,
}

impl SubmitMeta {
    /// The range of one lane, when the lane exists and carries tasks.
    pub open spec fn spec_lane_range(&self, lane_slot: int) -> Option<RknpuSubcoreTask> {
        if 0 <= lane_slot < RKNPU_MAX_SUBCORE_TASKS && self.lane_ranges[lane_slot].task_number > 0 {
            Some(self.lane_ranges[lane_slot])
        } else {
            None
        }
    }

    /// Build immutable scheduler metadata from one ioctl submit.
    ///
    /// If userspace leaves every `subcore_task[]` entry empty, lane 0 is
    /// normalized to cover the whole task array.
    pub fn from_submit(submit: &RknpuSubmit, task_total: u32) -> (m: SubmitMeta)
        ensures
            m.flags == submit.flags,
            m.priority == submit.priority,
            m.core_mask == submit.core_mask,
            m.task_array_dma_address == submit.task_array_dma_address,
            m.task_total == task_total,
            m.lane_ranges@ == normalized_lanes(submit.subcore_task@, task_total),
    {
        let mut lane_ranges = submit.subcore_task;
        let mut all_empty = true;
        let mut i: usize = 0;
        while i < 5
            invariant
                i <= 5,
                lane_ranges == submit.subcore_task,
                all_empty == (forall|j: int| 0 <= j < i ==> #[trigger] lane_ranges[j].task_number == 0),
            decreases 5 - i,
        {
            if lane_ranges[i].task_number != 0 {
                all_empty = false;
            }
            i = i + 1;
        }
        assert(all_empty == lanes_all_empty(submit.subcore_task@));
        if all_empty && task_total > 0 {
            lane_ranges[0] = RknpuSubcoreTask { task_start: 0, task_number: task_total };
        }
        assert(lane_ranges@ =~= normalized_lanes(submit.subcore_task@, task_total));
        SubmitMeta {
            flags: submit.flags,
            priority: submit.priority,
            core_mask: submit.core_mask,
            task_array_dma_address: submit.task_array_dma_address,
            lane_ranges,
            task_total,
        }
    }

    /// Return the normalized task range owned by one logical lane.
    pub fn lane_range(&self, lane_slot: usize) -> (r: Option<RknpuSubcoreTask>)
        ensures
            r == self.spec_lane_range(lane_slot as int),
    {
        if lane_slot < 5 && self.lane_ranges[lane_slot].task_number > 0 {
            Some(self.lane_ranges[lane_slot])
        } else {
            None
        }
    }
}

/// Submit fields that survive until terminal copy-back only.
#[derive(Debug, Clone, Copy, PartialEq, Eq)]
pub struct SubmitReplyState {
    /// Original submit timeout.
    pub timeout: u32,
    /// Original legacy task start.
    pub task_start: u32,
    /// Original IOMMU domain id.
    pub iommu_domain_id: u32,
    /// Reserved ABI field.
    pub reserved: u32,
    /// Fence fd.
    pub fence_fd: i32,
}

impl SubmitReplyState {
    /// Snapshot the reply-only fields from one ioctl submit.
    pub fn from_submit(submit: &RknpuSubmit) -> (r: SubmitReplyState)
        ensures
            r.timeout == submit.timeout,
            r.task_start == submit.task_start,
            r.iommu_domain_id == submit.iommu_domain_id,
            r.reserved == submit.reserved,
            r.fence_fd == submit.fence_fd,
    {
        SubmitReplyState {
            timeout: submit.timeout,
            task_start: submit.task_start,
            iommu_domain_id: submit.iommu_domain_id,
            reserved: submit.reserved,
            fence_fd: submit.fence_fd,
        }
    }
}

/// Queue-owned submit payload created at the ioctl boundary.
#[derive(Debug, Clone)]
pub struct RknpuQueuedSubmit {
    /// Immutable scheduling metadata.
    pub meta: SubmitMeta,
    /// Reply-only submit fields kept until terminal copy-back.
    pub reply: SubmitReplyState,
    /// Kernel-owned task shadow that the scheduler updates in place.
    pub tasks: Vec<RknpuTask>,
}

impl RknpuQueuedSubmit {
    /// Build the queue-owned submit payload from userspace submit data.
    ///
    /// The task total is the number of descriptors handed in, cut to 32 bits.
    pub fn new(submit: RknpuSubmit, tasks: Vec<RknpuTask>) -> (q: RknpuQueuedSubmit)
        ensures
            q.tasks@ == tasks@,
            q.meta.task_total == tasks@.len() as u32,
            q.meta.flags == submit.flags,
            q.meta.priority == submit.priority,
            q.meta.core_mask == submit.core_mask,
            q.meta.task_array_dma_address == submit.task_array_dma_address,
            q.meta.lane_ranges@ == normalized_lanes(submit.subcore_task@, tasks@.len() as u32),
            q.reply.timeout == submit.timeout,
            q.reply.task_start == submit.task_start,
            q.reply.iommu_domain_id == submit.iommu_domain_id,
            q.reply.reserved == submit.reserved,
            q.reply.fence_fd == submit.fence_fd,
    {
        let task_total = tasks.len() as u32;
        RknpuQueuedSubmit {
            meta: SubmitMeta::from_submit(&submit, task_total),
            reply: SubmitReplyState::from_submit(&submit),
            tasks,
        }
    }
}

/// Live progress of one queued blocking submit.
#[derive(Debug, Clone)]
pub struct RknpuQueueTask {
    /// Stable scheduler-visible submit id.
    pub id: RknpuQueueTaskId,
    /// Immutable scheduling metadata.
    pub meta: SubmitMeta,
    /// Reply-only fields copied back into `RknpuSubmit` at terminal time.
    pub reply: SubmitReplyState,
    /// Mutable task shadow updated by the scheduler harvest path.
    pub tasks: Vec<RknpuTask>,
    /// Per-lane progress cursor: completed tasks in that lane.
    pub subcore_cursors: [u32; 5],
    /// Per-lane running bit: the lane owns one in-flight dispatch.
    pub lane_isrun: [bool; 5],
    /// Last scheduler or driver error seen by this submit.
    pub last_error: Option<RknpuError>,
}

impl RknpuQueueTask {
    /// Every lane cursor stays within its lane.
    pub open spec fn wf(&self) -> bool {
        forall|i: int|
            0 <= i < 5 ==> #[trigger] self.subcore_cursors[i] <= self.meta.lane_ranges[i].task_number
    }

    /// Completions that make the submit terminal on success.
    pub open spec fn spec_completion_target(&self) -> int {
        let total = lane_task_sum(self.meta.lane_ranges@, 5);
        if total == 0 {
            self.meta.task_total as int
        } else if total < self.meta.task_total {
            total
        } else {
            self.meta.task_total as int
        }
    }

    /// Completions already recorded across all lanes.
    pub open spec fn spec_completed(&self) -> int {
        let done = cursor_sum(self.subcore_cursors@, 5);
        if done < self.spec_completion_target() {
            done
        } else {
            self.spec_completion_target()
        }
    }

    /// Absolute task index that lane `l` would dispatch next.
    pub open spec fn spec_next_index(&self, l: int) -> u32 {
        sat_add_u32(self.meta.lane_ranges[l].task_start, self.subcore_cursors[l])
    }

    /// Lane `l` can be dispatched now (ignoring the error state).
    pub open spec fn lane_dispatchable(&self, l: int) -> bool {
        &&& 0 <= l < 5
        &&& !self.lane_isrun[l]
        &&& self.meta.lane_ranges[l].task_number > 0
        &&& self.subcore_cursors[l] < self.meta.lane_ranges[l].task_number
        &&& self.spec_next_index(l) < self.meta.task_total
        &&& self.spec_next_index(l) < self.tasks@.len()
    }

    /// The submit can dispatch at least one more lane.
    pub open spec fn spec_has_dispatchable(&self) -> bool {
        self.last_error.is_none() && exists|l: int| #[trigger] self.lane_dispatchable(l)
    }

    /// Some lane owns a hardware core.
    pub open spec fn spec_has_running(&self) -> bool {
        exists|l: int| 0 <= l < 5 && #[trigger] self.lane_isrun[l]
    }

    /// The submit finished successfully.
    pub open spec fn spec_terminal_success(&self) -> bool {
        self.last_error.is_none() && self.spec_completed() >= self.spec_completion_target()
    }

    /// The submit faulted and all running lanes drained.
    pub open spec fn spec_terminal_fault(&self) -> bool {
        self.last_error.is_some() && !self.spec_has_running()
    }

    /// The submit may use the physical core.
    pub open spec fn spec_allows_core(&self, core_slot: int) -> bool {
        self.meta.core_mask == 0 || (self.meta.core_mask & spec_core_mask_from_index(core_slot)) != 0
    }

    /// The fresh live submit built from a queued payload.
    pub open spec fn spec_new(id: RknpuQueueTaskId, q: RknpuQueuedSubmit) -> RknpuQueueTask {
        RknpuQueueTask {
            id,
            meta: q.meta,
            reply: q.reply,
            tasks: q.tasks,
            subcore_cursors: [0, 0, 0, 0, 0],
            lane_isrun: [false, false, false, false, false],
            last_error: None,
        }
    }

    /// Materialize one live submit from the queue-owned boundary payload.
    pub fn new(id: RknpuQueueTaskId, queued_submit: RknpuQueuedSubmit) -> (t: RknpuQueueTask)
        ensures
            t == Self::spec_new(id, queued_submit),
            t.id == id,
            t.meta == queued_submit.meta,
            t.reply == queued_submit.reply,
            t.tasks@ == queued_submit.tasks@,
            forall|i: int| 0 <= i < 5 ==> t.subcore_cursors[i] == 0 && !t.lane_isrun[i],
            t.last_error.is_none(),
            t.wf(),
    {
        RknpuQueueTask {
            id,
            meta: queued_submit.meta,
            reply: queued_submit.reply,
            tasks: queued_submit.tasks,
            subcore_cursors: [0, 0, 0, 0, 0],
            lane_isrun: [false, false, false, false, false],
            last_error: None,
        }
    }

    /// Return how many task completions make this submit terminal on success.
    pub fn completion_target(&self) -> (n: u32)
        ensures
            n == self.spec_completion_target(),
    {
        let mut total: u64 = 0;
        let mut i: usize = 0;
        while i < 5
            invariant
                i <= 5,
                total == lane_task_sum(self.meta.lane_ranges@, i as nat),
                total <= i * 0xffff_ffff,
            decreases 5 - i,
        {
            total = total + self.meta.lane_ranges[i].task_number as u64;
            i = i + 1;
        }
        if total == 0 {
            self.meta.task_total
        } else if total < self.meta.task_total as u64 {
            total as u32
        } else {
            self.meta.task_total
        }
    }

    /// Return how many task completions already happened across all lanes.
    pub fn completed_task_count(&self) -> (n: u32)
        ensures
            n == self.spec_completed(),
    {
        let mut done: u64 = 0;
        let mut i: usize = 0;
        while i < 5
            invariant
                i <= 5,
                done == cursor_sum(self.subcore_cursors@, i as nat),
                done <= i * 0xffff_ffff,
            decreases 5 - i,
        {
            done = done + self.subcore_cursors[i] as u64;
            i = i + 1;
        }
        let target = self.completion_target();
        if done < target as u64 {
            done as u32
        } else {
            target
        }
    }

    /// Return true if at least one logical lane currently owns a hardware core.
    pub fn has_running_lanes(&self) -> (b: bool)
        ensures
            b == self.spec_has_running(),
    {
        let mut i: usize = 0;
        while i < 5
            invariant
                i <= 5,
                forall|j: int| 0 <= j < i ==> !#[trigger] self.lane_isrun[j],
            decreases 5 - i,
        {
            if self.lane_isrun[i] {
                return true;
            }
            i = i + 1;
        }
        false
    }

    /// Return the next lane/task pair that may be dispatched right now.
    ///
    /// Once an error is recorded no new work is issued; the lowest dispatchable
    /// lane slot wins otherwise.
    pub fn next_dispatchable_lane(&self) -> (r: Option<(usize, u32)>)
        ensures
            r.is_none() ==> (self.last_error.is_some() || forall|l: int|
                !#[trigger] self.lane_dispatchable(l)),
            r.is_some() ==> {
                let l = r.unwrap().0 as int;
                &&& self.last_error.is_none()
                &&& self.lane_dispatchable(l)
                &&& r.unwrap().1 == self.spec_next_index(l)
                &&& forall|j: int| 0 <= j < l ==> !#[trigger] self.lane_dispatchable(j)
            },
    {
        if self.last_error.is_some() {
            return None;
        }
        let mut lane_slot: usize = 0;
        while lane_slot < 5
            invariant
                lane_slot <= 5,
                self.last_error.is_none(),
                forall|j: int| 0 <= j < lane_slot ==> !#[trigger] self.lane_dispatchable(j),
            decreases 5 - lane_slot,
        {
            if !self.lane_isrun[lane_slot] {
                if let Some(range) = self.meta.lane_range(lane_slot) {
                    let cursor = self.subcore_cursors[lane_slot];
                    if cursor < range.task_number {
                        let task_index = range.task_start.saturating_add(cursor);
                        if task_index < self.meta.task_total && (task_index as usize)
                            < self.tasks.len() {
                            return Some((lane_slot, task_index));
                        }
                    }
                }
            }
            lane_slot = lane_slot + 1;
        }
        None
    }

    /// Return true if the submit can still dispatch at least one more lane.
    pub fn has_dispatchable_lane(&self) -> (b: bool)
        ensures
            b == self.spec_has_dispatchable(),
    {
        let r = self.next_dispatchable_lane();
        if r.is_some() {
            assert(self.lane_dispatchable(r.unwrap().0 as int));
        }
        r.is_some()
    }

    /// Return true if the submit finished successfully.
    pub fn is_terminal_success(&self) -> (b: bool)
        ensures
            b == self.spec_terminal_success(),
    {
        self.last_error.is_none() && self.completed_task_count() >= self.completion_target()
    }

    /// Return true if the submit faulted and all running lanes already drained.
    pub fn is_terminal_fault(&self) -> (b: bool)
        ensures
            b == self.spec_terminal_fault(),
    {
        self.last_error.is_some() && !self.has_running_lanes()
    }

    /// Return true if this submit may use the specified physical core.
    pub fn allows_core(&self, core_slot: usize) -> (b: bool)
        ensures
            b == self.spec_allows_core(core_slot as int),
    {
        let mask = self.meta.core_mask;
        mask == 0 || (mask & core_mask_from_index(core_slot)) != 0
    }

    /// Mark one lane as owning an in-flight hardware dispatch.
    pub fn mark_lane_running(&mut self, lane_slot: usize)
        ensures
            final(self).id == old(self).id,
            final(self).meta == old(self).meta,
            final(self).reply == old(self).reply,
            final(self).tasks@ == old(self).tasks@,
            final(self).subcore_cursors == old(self).subcore_cursors,
            final(self).last_error == old(self).last_error,
            final(self).lane_isrun@ == (if lane_slot < 5 {
                old(self).lane_isrun@.update(lane_slot as int, true)
            } else {
                old(self).lane_isrun@
            }),
            old(self).wf() ==> final(self).wf(),
            lane_slot < 5 ==> !final(self).lane_dispatchable(lane_slot as int),
    {
        if lane_slot < 5 {
            self.lane_isrun[lane_slot] = true;
        }
    }

    /// Mark one dispatched lane as completed and advance its cursor by one
    /// task, never past the end of the lane.
    pub fn complete_lane(&mut self, lane_slot: usize)
        ensures
            final(self).id == old(self).id,
            final(self).meta == old(self).meta,
            final(self).reply == old(self).reply,
            final(self).tasks@ == old(self).tasks@,
            final(self).last_error == old(self).last_error,
            final(self).lane_isrun@ == (if lane_slot < 5 {
                old(self).lane_isrun@.update(lane_slot as int, false)
            } else {
                old(self).lane_isrun@
            }),
            final(self).subcore_cursors@ == (match old(self).meta.spec_lane_range(lane_slot as int) {
                Some(range) => old(self).subcore_cursors@.update(
                    lane_slot as int,
                    if sat_add_u32(old(self).subcore_cursors[lane_slot as int], 1) < range.task_number {
                        sat_add_u32(old(self).subcore_cursors[lane_slot as int], 1)
                    } else {
                        range.task_number
                    },
                ),
                None => old(self).subcore_cursors@,
            }),
            old(self).wf() ==> final(self).wf(),
            old(self).wf() ==> old(self).spec_completed() <= final(self).spec_completed()
                <= old(self).spec_completed() + 1,
    {
        if lane_slot < 5 {
            self.lane_isrun[lane_slot] = false;
        }
        let range = match self.meta.lane_range(lane_slot) {
            Some(range) => range,
            None => {
                return ;
            },
        };
        let ghost before = self.subcore_cursors@;
        let next = self.subcore_cursors[lane_slot].saturating_add(1);
        let new_cursor = if next < range.task_number {
            next
        } else {
            range.task_number
        };
        proof {
            if old(self).wf() {
                assert(new_cursor >= before[lane_slot as int]);
            }
        }
        self.subcore_cursors[lane_slot] = new_cursor;
        proof {
            if new_cursor >= before[lane_slot as int] {
                lemma_cursor_sum_update(before, lane_slot as int, new_cursor, 5);
            }
            assert(self.subcore_cursors@ == before.update(lane_slot as int, new_cursor));
        }
    }

    /// Mark one lane as failed before completion and record the error.
    ///
    /// The lane's cursor is not advanced because the task never completed.
    pub fn fail_lane(&mut self, lane_slot: usize, err: RknpuError)
        ensures
            final(self).id == old(self).id,
            final(self).meta == old(self).meta,
            final(self).reply == old(self).reply,
            final(self).tasks@ == old(self).tasks@,
            final(self).subcore_cursors == old(self).subcore_cursors,
            final(self).last_error == Some(err),
            final(self).lane_isrun@ == (if lane_slot < 5 {
                old(self).lane_isrun@.update(lane_slot as int, false)
            } else {
                old(self).lane_isrun@
            }),
            old(self).wf() ==> final(self).wf(),
            !final(self).spec_has_dispatchable(),
    {
        if lane_slot < 5 {
            self.lane_isrun[lane_slot] = false;
        }
        self.last_error = Some(err);
    }
}

impl RknpuQueueTask {
    /// Rebuild the ABI-facing submit header at the terminal boundary.
    ///
    /// `hw_elapse_time` reports `-1` after an error, the completed task count
    /// after a successful finish, and zero while the submit is still live.
    pub fn build_submit(&self) -> (s: RknpuSubmit)
        ensures
            s == spec_build_submit(*self),
    {
        let mut submit = RknpuSubmit::default();
        submit.flags = self.meta.flags;
        submit.timeout = self.reply.timeout;
        submit.task_start = self.reply.task_start;
        submit.task_number = self.meta.task_total;
        submit.task_counter = self.completed_task_count();
        submit.priority = self.meta.priority;
        submit.task_array_cpu_address = 0;
        submit.iommu_domain_id = self.reply.iommu_domain_id;
        submit.reserved = self.reply.reserved;
        submit.task_array_dma_address = self.meta.task_array_dma_address;
        submit.hw_elapse_time = if self.last_error.is_some() {
            -1
        } else if self.is_terminal_success() {
            self.completed_task_count() as i64
        } else {
            0
        };
        submit.core_mask = self.meta.core_mask;
        submit.fence_fd = self.reply.fence_fd;
        submit.subcore_task = self.meta.lane_ranges;
        submit
    }
}

/// The ioctl header rebuilt for a submit: its own flags, task range,
/// priority, masks and reply fields, the completed task count, no CPU task
/// array, and an elapsed time of -1 after a fault, the completed count after
/// success and 0 otherwise.
pub open spec fn spec_build_submit(t: RknpuQueueTask) -> RknpuSubmit {
    RknpuSubmit {
        flags: t.meta.flags,
        timeout: t.reply.timeout,
        task_start: t.reply.task_start,
        task_number: t.meta.task_total,
        task_counter: t.spec_completed() as u32,
        priority: t.meta.priority,
        task_array_cpu_address: 0,
        iommu_domain_id: t.reply.iommu_domain_id,
        reserved: t.reply.reserved,
        task_array_dma_address: t.meta.task_array_dma_address,
        hw_elapse_time: if t.last_error.is_some() {
            -1i64
        } else if t.spec_terminal_success() {
            t.spec_completed() as i64
        } else {
            0i64
        },
        core_mask: t.meta.core_mask,
        fence_fd: t.reply.fence_fd,
        subcore_task: t.meta.lane_ranges,
    }
}

/// A submit is never both successfully finished and faulted.
pub proof fn law_terminal_states_exclusive(task: RknpuQueueTask)
    ensures
        !(task.spec_terminal_success() && task.spec_terminal_fault()),
{
}

/// A lane that owns a core is never offered for another dispatch, and a
/// submit with a recorded error offers no new work at all.
pub proof fn law_no_double_dispatch(task: RknpuQueueTask, lane_slot: int)
    requires
        0 <= lane_slot < 5,
    ensures
        task.lane_isrun[lane_slot] ==> !task.lane_dispatchable(lane_slot),
        task.last_error.is_some() ==> !task.spec_has_dispatchable(),
{
}

/// The recorded completions never exceed the completion target.
pub proof fn law_completed_within_target(task: RknpuQueueTask)
    ensures
        0 <= task.spec_completed() <= task.spec_completion_target(),
{
    lemma_cursor_sum_nonneg(task.subcore_cursors@, 5);
    lemma_lane_sum_nonneg(task.meta.lane_ranges@, 5);
}

/// A sum of lane task numbers is never negative.
pub proof fn lemma_lane_sum_nonneg(lanes: Seq<RknpuSubcoreTask>, n: nat)
    requires
        n <= lanes.len(),
    ensures
        lane_task_sum(lanes, n) >= 0,
    decreases n,
{
    if n > 0 {
        lemma_lane_sum_nonneg(lanes, (n - 1) as nat);
    }
}

/// A sum of cursors is never negative.
pub proof fn lemma_cursor_sum_nonneg(c: Seq<u32>, n: nat)
    requires
        n <= c.len(),
    ensures
        cursor_sum(c, n) >= 0,
    decreases n,
{
    if n > 0 {
        lemma_cursor_sum_nonneg(c, (n - 1) as nat);
    }
}

/// Raising one cursor by at most one raises the cursor sum by the same amount.
pub proof fn lemma_cursor_sum_update(c: Seq<u32>, l: int, v: u32, n: nat)
    requires
        0 <= l < c.len(),
        n <= c.len(),
        c[l] <= v,
    ensures
        l < n ==> cursor_sum(c.update(l, v), n) == cursor_sum(c, n) + (v - c[l]),
        l >= n ==> cursor_sum(c.update(l, v), n) == cursor_sum(c, n),
    decreases n,
{
    if n > 0 {
        lemma_cursor_sum_update(c, l, v, (n - 1) as nat);
    }
}

} // verus!
