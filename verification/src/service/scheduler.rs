//! Ready/running/complete bookkeeping of the multi-core NPU scheduler.
//!
//! Live submits are owned by `tasks`. `ready` and `running` are priority
//! queues of submit ids: entries are kept in ascending priority order and,
//! within one priority, in arrival order, so the first matching entry is the
//! one the scheduler serves next.
use vstd::prelude::*;
use crate::err::RknpuError;
use crate::job::RknpuTask;
use crate::status::{CoreCompletion, NPU_MAX_CORES};
use crate::taskqueen::{spec_build_submit, RknpuQueueTask, RknpuQueueTaskId, RknpuQueuedSubmit};
use crate::ioctrl::RknpuSubmit;
use crate::service::error::RknpuServiceError;

verus! {

/// One queue entry: a submit id filed under its priority.
#[derive(Debug, Clone, Copy, PartialEq, Eq, Structural)]
pub struct BucketEntry {
    pub priority: i32,
    pub task_id: RknpuQueueTaskId,
}

/// Binding between one physical core and one running lane.
#[derive(Debug, Clone, Copy, PartialEq, Eq, Structural)]
pub struct CoreRunBinding {
    /// Live submit id that owns the dispatch.
    pub task_id: RknpuQueueTaskId,
    /// Logical lane inside that submit.
    pub lane_slot: u8,
    /// Absolute task index inside the submit's task array.
    pub task_index: u32,
}

/// Driver-call arguments prepared for one dispatch.
#[derive(Clone, Copy, Debug)]
pub struct DispatchSetup {
    /// Target physical core for this driver call.
    pub core_slot: usize,
    /// Submit/lane/task binding recorded for this core.
    pub binding: CoreRunBinding,
    /// Job-mode flags copied from the submit header.
    pub submit_flags: u32,
    /// Total number of task descriptors in this submit.
    pub task_total: u32,
    /// DMA base of the task descriptor array.
    pub task_array_dma_address: u64,
    /// Snapshot of the task descriptor used to program hardware.
    pub task: RknpuTask,
}

/// Index of the first task among the first `n` whose id is `id`, or -1.
pub open spec fn first_task_index_upto(tasks: Seq<RknpuQueueTask>, id: u64, n: nat) -> int
    decreases n,
{
    if n == 0 {
        -1
    } else {
        let r = first_task_index_upto(tasks, id, (n - 1) as nat);
        if r >= 0 {
            r
        } else if tasks[n - 1].id == id {
            n - 1
        } else {
            -1
        }
    }
}

/// Index of the first task whose id is `id`, or -1 when there is none.
pub open spec fn first_task_index(tasks: Seq<RknpuQueueTask>, id: u64) -> int {
    first_task_index_upto(tasks, id, tasks.len())
}

/// No two submits in `s` share an id.
pub open spec fn ids_unique(s: Seq<RknpuQueueTask>) -> bool {
    forall|i: int, j: int| 0 <= i < j < s.len() ==> #[trigger] s[i].id != #[trigger] s[j].id
}

/// Removing a submit keeps the ids distinct.
pub proof fn lemma_unique_remove(s: Seq<RknpuQueueTask>, k: int)
    requires
        ids_unique(s),
        0 <= k < s.len(),
    ensures
        ids_unique(s.remove(k)),
{
    let r = s.remove(k);
    assert forall|i: int, j: int| 0 <= i < j < r.len() implies #[trigger] r[i].id != #[trigger] r[j].id by {
        let i0 = if i < k { i } else { i + 1 };
        let j0 = if j < k { j } else { j + 1 };
        assert(r[i] == s[i0] && r[j] == s[j0]);
    }
}

/// Sequences with the same id at every position agree on distinctness and
/// on every first-match index.
pub proof fn lemma_unique_same_ids(a: Seq<RknpuQueueTask>, b: Seq<RknpuQueueTask>)
    requires
        ids_unique(a),
        a.len() == b.len(),
        forall|j: int| 0 <= j < a.len() ==> #[trigger] a[j].id == b[j].id,
    ensures
        ids_unique(b),
{
    assert forall|i: int, j: int| 0 <= i < j < b.len() implies #[trigger] b[i].id != #[trigger] b[j].id by {
        assert(a[i].id == b[i].id && a[j].id == b[j].id);
    }
}

/// In distinct ids, the submit found under `id` is the only one with it:
/// once removed, none is left.
pub proof fn lemma_unique_remove_found(s: Seq<RknpuQueueTask>, id: u64)
    requires
        ids_unique(s),
        first_task_index(s, id) >= 0,
    ensures
        first_task_index(s.remove(first_task_index(s, id)), id) < 0,
{
    let k = first_task_index(s, id);
    lemma_first_task_index_bounds(s, id, s.len());
    let r = s.remove(k);
    lemma_first_task_index_bounds(r, id, r.len());
    if first_task_index(r, id) >= 0 {
        let m = first_task_index(r, id);
        let m0 = if m < k { m } else { m + 1 };
        assert(r[m] == s[m0]);
        if m0 < k {
            assert(s[m0].id != s[k].id);
        } else {
            assert(s[k].id != s[m0].id);
        }
    }
}

/// Entries are in ascending priority order.
pub open spec fn sorted_by_priority(s: Seq<BucketEntry>) -> bool {
    forall|i: int, j: int| 0 <= i < j < s.len() ==> s[i].priority <= s[j].priority
}

/// `s` without every entry of submit `id`.
pub open spec fn without_id(s: Seq<BucketEntry>, id: u64) -> Seq<BucketEntry>
    decreases s.len(),
{
    if s.len() == 0 {
        s
    } else {
        let r = without_id(s.drop_last(), id);
        if s.last().task_id == id {
            r
        } else {
            r.push(s.last())
        }
    }
}

/// Number of leading entries whose priority is at most `p`.
pub open spec fn count_at_most(s: Seq<BucketEntry>, p: i32, n: nat) -> nat
    decreases n,
{
    if n == 0 {
        0
    } else if s[n - 1].priority <= p {
        count_at_most(s, p, (n - 1) as nat) + 1
    } else {
        count_at_most(s, p, (n - 1) as nat)
    }
}

/// Filing `id` under priority `p`: nothing changes if it is already filed
/// there, otherwise it goes behind every entry of priority at most `p`.
pub open spec fn pushed_bucket(s: Seq<BucketEntry>, p: i32, id: u64) -> Seq<BucketEntry> {
    if s.contains(BucketEntry { priority: p, task_id: id }) {
        s
    } else {
        s.insert(count_at_most(s, p, s.len()) as int, BucketEntry { priority: p, task_id: id })
    }
}

/// Once the first match is found it stays the first match.
pub proof fn lemma_first_task_index_stable(tasks: Seq<RknpuQueueTask>, id: u64, i: nat, n: nat)
    requires
        i < n <= tasks.len(),
        first_task_index_upto(tasks, id, i) == -1,
        tasks[i as int].id == id,
    ensures
        first_task_index_upto(tasks, id, n) == i,
    decreases n,
{
    if n > i + 1 {
        lemma_first_task_index_stable(tasks, id, i, (n - 1) as nat);
    }
}

/// The first-match index is -1 or a valid index holding that id, with no
/// earlier index holding it.
pub proof fn lemma_first_task_index_bounds(tasks: Seq<RknpuQueueTask>, id: u64, n: nat)
    requires
        n <= tasks.len(),
    ensures
        -1 <= first_task_index_upto(tasks, id, n) < n,
        first_task_index_upto(tasks, id, n) >= 0 ==> tasks[first_task_index_upto(tasks, id, n)].id == id,
        first_task_index_upto(tasks, id, n) == -1 ==> forall|j: int| 0 <= j < n ==> #[trigger] tasks[j].id != id,
    decreases n,
{
    if n > 0 {
        lemma_first_task_index_bounds(tasks, id, (n - 1) as nat);
    }
}

/// Find the position of a live submit by id.
pub fn find_task(tasks: &Vec<RknpuQueueTask>, id: u64) -> (r: Option<usize>)
    ensures
        match r {
            Some(k) => k as int == first_task_index(tasks@, id) && k < tasks@.len(),
            None => first_task_index(tasks@, id) == -1,
        },
{
    let mut i: usize = 0;
    while i < tasks.len()
        invariant
            i <= tasks@.len(),
            first_task_index_upto(tasks@, id, i as nat) == -1,
        decreases tasks@.len() - i,
    {
        if tasks[i].id == id {
            proof {
                lemma_first_task_index_stable(tasks@, id, i as nat, tasks@.len());
            }
            return Some(i);
        }
        i = i + 1;
    }
    None
}

/// File `task_id` under `priority` once, keeping the priority order.
pub fn push_bucket(buckets: &mut Vec<BucketEntry>, priority: i32, task_id: RknpuQueueTaskId)
    ensures
        final(buckets)@ == pushed_bucket(old(buckets)@, priority, task_id),
        sorted_by_priority(old(buckets)@) ==> sorted_by_priority(final(buckets)@),
{
    let entry = BucketEntry { priority, task_id };
    let mut i: usize = 0;
    let mut pos: usize = 0;
    while i < buckets.len()
        invariant
            i <= buckets@.len(),
            buckets@ == old(buckets)@,
            pos == count_at_most(buckets@, priority, i as nat),
            pos <= i,
            entry == (BucketEntry { priority, task_id }),
            forall|j: int| 0 <= j < i ==> #[trigger] buckets@[j] != entry,
        decreases buckets@.len() - i,
    {
        if buckets[i].priority == priority && buckets[i].task_id == task_id {
            assert(buckets@[i as int] == entry);
            return;
        }
        if buckets[i].priority <= priority {
            pos = pos + 1;
        }
        i = i + 1;
    }
    assert(!buckets@.contains(entry));
    proof {
        if sorted_by_priority(buckets@) {
            lemma_count_at_most_split(buckets@, priority, buckets@.len());
        }
    }
    buckets.insert(pos, entry);
}

/// In a sorted sequence the entries of priority at most `p` form a prefix.
pub proof fn lemma_count_at_most_split(s: Seq<BucketEntry>, p: i32, n: nat)
    requires
        n <= s.len(),
        sorted_by_priority(s),
    ensures
        count_at_most(s, p, n) <= n,
        forall|j: int| 0 <= j < count_at_most(s, p, n) ==> #[trigger] s[j].priority <= p,
        forall|j: int| count_at_most(s, p, n) <= j < n ==> #[trigger] s[j].priority > p,
    decreases n,
{
    if n > 0 {
        lemma_count_at_most_split(s, p, (n - 1) as nat);
    }
}

/// Remove every entry of `task_id`, keeping the order of the rest.
pub fn remove_from_buckets(buckets: &mut Vec<BucketEntry>, task_id: RknpuQueueTaskId)
    ensures
        final(buckets)@ == without_id(old(buckets)@, task_id),
        sorted_by_priority(old(buckets)@) ==> sorted_by_priority(final(buckets)@),
{
    let mut kept: Vec<BucketEntry> = Vec::new();
    let mut i: usize = 0;
    let ghost src = buckets@;
    while i < buckets.len()
        invariant
            i <= buckets@.len(),
            buckets@ == src,
            src == old(buckets)@,
            kept@ == without_id(src.take(i as int), task_id),
            sorted_by_priority(src) ==> sorted_by_priority(kept@),
            sorted_by_priority(src) ==> forall|k: int, j: int|
                0 <= k < kept@.len() && i <= j < src.len() ==> kept@[k].priority <= src[j].priority,
        decreases buckets@.len() - i,
    {
        assert(src.take(i as int + 1).drop_last() =~= src.take(i as int));
        let e = buckets[i];
        if e.task_id != task_id {
            kept.push(e);
        }
        i = i + 1;
    }
    assert(src.take(src.len() as int) =~= src);
    *buckets = kept;
}


/// Index of the first `i < n` where `p(i)` holds, or -1.
pub open spec fn first_true_upto(p: spec_fn(int) -> bool, n: nat) -> int
    decreases n,
{
    if n == 0 {
        -1
    } else {
        let r = first_true_upto(p, (n - 1) as nat);
        if r >= 0 {
            r
        } else if p(n - 1) {
            n - 1
        } else {
            -1
        }
    }
}

/// Characterization of `first_true_upto`.
pub proof fn lemma_first_true(p: spec_fn(int) -> bool, n: nat)
    ensures
        -1 <= first_true_upto(p, n) < n,
        first_true_upto(p, n) >= 0 ==> p(first_true_upto(p, n)),
        forall|j: int| 0 <= j < first_true_upto(p, n) ==> !#[trigger] p(j),
        first_true_upto(p, n) == -1 ==> forall|j: int| 0 <= j < n ==> !#[trigger] p(j),
    decreases n,
{
    if n > 0 {
        lemma_first_true(p, (n - 1) as nat);
    }
}

/// A first match at `i` is the first match of every longer prefix.
pub proof fn lemma_first_true_at(p: spec_fn(int) -> bool, i: int, n: nat)
    requires
        0 <= i < n,
        p(i),
        forall|j: int| 0 <= j < i ==> !#[trigger] p(j),
    ensures
        first_true_upto(p, n) == i,
    decreases n,
{
    if n > i + 1 {
        lemma_first_true_at(p, i, (n - 1) as nat);
    } else {
        lemma_none_true(p, i as nat);
    }
}

/// Pointwise equal predicates have the same first match.
pub proof fn lemma_first_true_ext(p: spec_fn(int) -> bool, q: spec_fn(int) -> bool, n: nat)
    requires
        forall|i: int| #![trigger p(i)] 0 <= i < n ==> p(i) == q(i),
    ensures
        first_true_upto(p, n) == first_true_upto(q, n),
    decreases n,
{
    if n > 0 {
        lemma_first_true_ext(p, q, (n - 1) as nat);
    }
}

/// No match in the prefix gives -1.
pub proof fn lemma_none_true(p: spec_fn(int) -> bool, n: nat)
    requires
        forall|j: int| 0 <= j < n ==> !#[trigger] p(j),
    ensures
        first_true_upto(p, n) == -1,
    decreases n,
{
    if n > 0 {
        lemma_none_true(p, (n - 1) as nat);
    }
}

/// The binding a submit offers next: its lowest dispatchable lane.
pub open spec fn next_binding(task: RknpuQueueTask, id: u64) -> Option<CoreRunBinding> {
    let l = first_true_upto(|l: int| task.lane_dispatchable(l), 5);
    if task.last_error.is_none() && l >= 0 {
        Some(CoreRunBinding { task_id: id, lane_slot: l as u8, task_index: task.spec_next_index(l) })
    } else {
        None
    }
}

/// Relates `next_dispatchable_lane`'s result to `next_binding`.
pub proof fn lemma_next_binding(task: RknpuQueueTask, id: u64, r: Option<(usize, u32)>)
    requires
        r.is_none() ==> (task.last_error.is_some() || forall|l: int|
            !#[trigger] task.lane_dispatchable(l)),
        r.is_some() ==> {
            let l = r.unwrap().0 as int;
            &&& task.last_error.is_none()
            &&& task.lane_dispatchable(l)
            &&& r.unwrap().1 == task.spec_next_index(l)
            &&& forall|j: int| 0 <= j < l ==> !#[trigger] task.lane_dispatchable(j)
        },
    ensures
        r.is_some() == next_binding(task, id).is_some(),
        r.is_some() ==> next_binding(task, id) == Some(
            CoreRunBinding { task_id: id, lane_slot: r.unwrap().0 as u8, task_index: r.unwrap().1 },
        ),
        r.is_some() == task.spec_has_dispatchable(),
{
    let p = |l: int| task.lane_dispatchable(l);
    lemma_first_true(p, 5);
    if r.is_some() {
        lemma_first_true_at(p, r.unwrap().0 as int, 5);
    } else if task.last_error.is_none() {
        lemma_none_true(p, 5);
    }
}

/// Mutable scheduler state.
pub struct NpuSchedulerState {
    /// Unique owner of every live submit that is not terminal yet.
    pub tasks: Vec<RknpuQueueTask>,
    /// Ready queue, in priority then arrival order.
    pub ready: Vec<BucketEntry>,
    /// Running queue, in priority then arrival order.
    pub running: Vec<BucketEntry>,
    /// Physical core -> running submit/lane/task binding.
    pub core_binding: [Option<CoreRunBinding>; 3],
    /// Terminal submits waiting to be taken.
    pub complete: Vec<RknpuQueueTask>,
    /// Id handed to the next enqueued submit.
    pub next_task_id: u64,
    /// Whether the singleton worker was already spawned.
    pub worker_started: bool,
}

impl NpuSchedulerState {
    /// Both queues are in priority order, and no two live submits, nor two
    /// terminal ones, share an id.
    pub open spec fn wf(&self) -> bool {
        &&& sorted_by_priority(self.ready@)
        &&& sorted_by_priority(self.running@)
        &&& ids_unique(self.tasks@)
        &&& ids_unique(self.complete@)
    }

    /// The queue entry `e` names a live submit that may use `core` and still
    /// has a lane to dispatch.
    pub open spec fn serves(&self, e: BucketEntry, core: int) -> bool {
        let k = first_task_index(self.tasks@, e.task_id);
        &&& k >= 0
        &&& self.tasks@[k].spec_allows_core(core)
        &&& self.tasks@[k].spec_has_dispatchable()
    }

    /// Position in `q` of the first entry serving `core`, or -1.
    pub open spec fn pick(&self, q: Seq<BucketEntry>, core: int) -> int {
        first_true_upto(|i: int| self.serves(q[i], core), q.len())
    }

    /// The binding the running queue offers to `core`.
    pub open spec fn running_offer(&self, core: int) -> Option<CoreRunBinding> {
        let i = self.pick(self.running@, core);
        if i >= 0 {
            let id = self.running@[i].task_id;
            next_binding(self.tasks@[first_task_index(self.tasks@, id)], id)
        } else {
            None
        }
    }

    /// Create an empty scheduler state with no worker marked as started.
    pub fn new() -> (s: NpuSchedulerState)
        ensures
            s.tasks@.len() == 0,
            s.ready@.len() == 0,
            s.running@.len() == 0,
            s.complete@.len() == 0,
            forall|c: int| 0 <= c < 3 ==> s.core_binding[c].is_none(),
            s.next_task_id == 1,
            !s.worker_started,
            s.wf(),
    {
        NpuSchedulerState {
            tasks: Vec::new(),
            ready: Vec::new(),
            running: Vec::new(),
            core_binding: [None, None, None],
            complete: Vec::new(),
            next_task_id: 1,
            worker_started: false,
        }
    }

    /// Return true while at least one submit still owns live scheduler state.
    pub fn has_live_work(&self) -> (b: bool)
        ensures
            b == (self.tasks@.len() > 0),
    {
        self.tasks.len() > 0
    }

    /// Return true while at least one physical core has an active binding.
    pub fn has_inflight(&self) -> (b: bool)
        ensures
            b == exists|c: int| 0 <= c < 3 && #[trigger] self.core_binding[c].is_some(),
    {
        let r = self.core_binding[0].is_some() || self.core_binding[1].is_some()
            || self.core_binding[2].is_some();
        assert(r ==> (self.core_binding[0].is_some() || self.core_binding[1].is_some()
            || self.core_binding[2].is_some()));
        r
    }

    /// Return every physical core that does not currently own a dispatch.
    pub fn idle_cores(&self) -> (v: Vec<usize>)
        ensures
            forall|k: int| 0 <= k < v@.len() ==> v@[k] < NPU_MAX_CORES,
            forall|k: int| 0 <= k < v@.len() ==> self.core_binding[v@[k] as int].is_none(),
            forall|c: int|
                0 <= c < NPU_MAX_CORES && #[trigger] self.core_binding[c].is_none() ==> v@.contains(
                    c as usize,
                ),
            forall|k1: int, k2: int| 0 <= k1 < k2 < v@.len() ==> v@[k1] < v@[k2],
    {
        let mut v: Vec<usize> = Vec::new();
        let mut c: usize = 0;
        while c < NPU_MAX_CORES
            invariant
                c <= NPU_MAX_CORES,
                forall|k: int| 0 <= k < v@.len() ==> v@[k] < c,
                forall|k: int| 0 <= k < v@.len() ==> self.core_binding[v@[k] as int].is_none(),
                forall|d: int|
                    0 <= d < c && #[trigger] self.core_binding[d].is_none() ==> v@.contains(d as usize),
                forall|k1: int, k2: int| 0 <= k1 < k2 < v@.len() ==> v@[k1] < v@[k2],
            decreases NPU_MAX_CORES - c,
        {
            let ghost before = v@;
            if self.core_binding[c].is_none() {
                v.push(c);
                assert(v@[v@.len() - 1] == c);
                assert forall|d: int|
                    0 <= d < c + 1 && #[trigger] self.core_binding[d].is_none() implies v@.contains(
                    d as usize,
                ) by {
                    if d < c {
                        assert(before.contains(d as usize));
                        let k = choose|k: int| 0 <= k < before.len() && before[k] == d as usize;
                        assert(v@[k] == d as usize);
                    } else {
                        assert(v@[v@.len() - 1] == d as usize);
                    }
                }
            }
            c = c + 1;
        }
        v
    }

    /// Find the next lane from an already-running submit that may use this core.
    pub fn find_running_candidate_for_core(&self, core_slot: usize) -> (r: Option<CoreRunBinding>)
        ensures
            r == self.running_offer(core_slot as int),
            r.is_some() == (self.pick(self.running@, core_slot as int) >= 0),
    {
        let ghost p = |i: int| self.serves(self.running@[i], core_slot as int);
        let mut i: usize = 0;
        while i < self.running.len()
            invariant
                i <= self.running@.len(),
                p == (|i: int| self.serves(self.running@[i], core_slot as int)),
                forall|j: int| 0 <= j < i ==> !#[trigger] p(j),
            decreases self.running@.len() - i,
        {
            let id = self.running[i].task_id;
            if let Some(k) = find_task(&self.tasks, id) {
                if self.tasks[k].allows_core(core_slot) {
                    let lane = self.tasks[k].next_dispatchable_lane();
                    proof {
                        lemma_next_binding(self.tasks@[k as int], id, lane);
                    }
                    if let Some((lane_slot, task_index)) = lane {
                        proof {
                            lemma_first_true_at(p, i as int, self.running@.len());
                        }
                        return Some(
                            CoreRunBinding { task_id: id, lane_slot: lane_slot as u8, task_index },
                        );
                    }
                }
            }
            i = i + 1;
        }
        proof {
            lemma_none_true(p, self.running@.len());
        }
        None
    }

    /// Pop the highest-priority ready submit that can dispatch on this core.
    pub fn pop_ready_candidate_for_core(&mut self, core_slot: usize) -> (r: Option<RknpuQueueTaskId>)
        ensures
            ({
                let i = old(self).pick(old(self).ready@, core_slot as int);
                &&& r == (if i >= 0 { Some(old(self).ready@[i].task_id) } else { None })
                &&& final(self).ready@ == (if i >= 0 { old(self).ready@.remove(i) } else { old(self).ready@ })
            }),
            final(self).tasks@ == old(self).tasks@,
            final(self).running@ == old(self).running@,
            final(self).complete@ == old(self).complete@,
            final(self).core_binding == old(self).core_binding,
            final(self).next_task_id == old(self).next_task_id,
            final(self).worker_started == old(self).worker_started,
            sorted_by_priority(old(self).ready@) ==> sorted_by_priority(final(self).ready@),
            old(self).wf() ==> final(self).wf(),
    {
        let ghost p = |i: int| old(self).serves(old(self).ready@[i], core_slot as int);
        let mut i: usize = 0;
        while i < self.ready.len()
            invariant
                i <= self.ready@.len(),
                self.ready@ == old(self).ready@,
                self.tasks@ == old(self).tasks@,
                self.running@ == old(self).running@,
                self.complete@ == old(self).complete@,
                self.core_binding == old(self).core_binding,
                self.next_task_id == old(self).next_task_id,
                self.worker_started == old(self).worker_started,
                p == (|i: int| old(self).serves(old(self).ready@[i], core_slot as int)),
                forall|j: int| 0 <= j < i ==> !#[trigger] p(j),
            decreases self.ready@.len() - i,
        {
            let id = self.ready[i].task_id;
            if let Some(k) = find_task(&self.tasks, id) {
                if self.tasks[k].allows_core(core_slot) && self.tasks[k].has_dispatchable_lane() {
                    proof {
                        lemma_first_true_at(p, i as int, self.ready@.len());
                    }
                    let ghost before = self.ready@;
                    self.ready.remove(i);
                    proof {
                        if sorted_by_priority(before) {
                            assert(sorted_by_priority(self.ready@)) by {
                                assert forall|a: int, b: int| 0 <= a < b < self.ready@.len() implies
                                    self.ready@[a].priority <= self.ready@[b].priority by {
                                    let a0 = if a < i { a } else { a + 1 };
                                    let b0 = if b < i { b } else { b + 1 };
                                    assert(self.ready@[a] == before[a0]);
                                    assert(self.ready@[b] == before[b0]);
                                }
                            }
                        }
                    }
                    return Some(id);
                }
            }
            i = i + 1;
        }
        proof {
            lemma_none_true(p, self.ready@.len());
        }
        None
    }
}


/// `s` with `t` stored under its id: replacing the first submit with that id,
/// or appended when there is none.
pub open spec fn put_task(s: Seq<RknpuQueueTask>, t: RknpuQueueTask) -> Seq<RknpuQueueTask> {
    let k = first_task_index(s, t.id);
    if k >= 0 {
        s.update(k, t)
    } else {
        s.push(t)
    }
}

/// Store a submit under its id, replacing an earlier one with the same id.
pub fn put_task_exec(v: &mut Vec<RknpuQueueTask>, t: RknpuQueueTask)
    ensures
        final(v)@ == put_task(old(v)@, t),
{
    match find_task(v, t.id) {
        Some(k) => {
            v.set(k, t);
        },
        None => {
            v.push(t);
        },
    }
}

/// Storing a submit under its id keeps the ids distinct.
pub proof fn lemma_unique_put(s: Seq<RknpuQueueTask>, t: RknpuQueueTask)
    requires
        ids_unique(s),
    ensures
        ids_unique(put_task(s, t)),
        first_task_index(put_task(s, t), t.id) >= 0,
{
    let k = first_task_index(s, t.id);
    lemma_first_task_index_bounds(s, t.id, s.len());
    let r = put_task(s, t);
    if k >= 0 {
        assert forall|i: int, j: int| 0 <= i < j < r.len() implies #[trigger] r[i].id != #[trigger] r[j].id by {
            assert(s[i].id != s[j].id);
        }
        lemma_first_task_index_bounds(r, t.id, r.len());
        assert(r[k] == t);
    } else {
        assert forall|i: int, j: int| 0 <= i < j < r.len() implies #[trigger] r[i].id != #[trigger] r[j].id by {
            if j < s.len() {
                assert(s[i].id != s[j].id);
            } else {
                assert(r[j] == t);
                assert(s[i].id != t.id);
            }
        }
        lemma_first_task_index_bounds(r, t.id, r.len());
        assert(r[s.len() as int].id == t.id);
    }
}

/// The descriptor a dispatch programs: the stored one with its status cleared.
pub open spec fn cleared(d: RknpuTask) -> RknpuTask {
    RknpuTask { int_status: 0, ..d }
}

/// `pre` binds `b` on `core`: the descriptor's status is cleared, the lane is
/// marked running, the core binding is recorded and `setup` carries the
/// driver-call arguments.
pub open spec fn dispatch_effect(
    pre_tasks: Seq<RknpuQueueTask>,
    pre_cb: [Option<CoreRunBinding>; 3],
    post_tasks: Seq<RknpuQueueTask>,
    post_cb: [Option<CoreRunBinding>; 3],
    core: int,
    b: CoreRunBinding,
    setup: DispatchSetup,
) -> bool {
    let k = first_task_index(pre_tasks, b.task_id);
    let t = pre_tasks[k];
    let nt = post_tasks[k];
    let d = cleared(t.tasks@[b.task_index as int]);
    &&& setup == (DispatchSetup {
        core_slot: core as usize,
        binding: b,
        submit_flags: t.meta.flags,
        task_total: t.tasks@.len() as u32,
        task_array_dma_address: t.meta.task_array_dma_address,
        task: d,
    })
    &&& post_cb@ == pre_cb@.update(core, Some(b))
    &&& post_tasks.len() == pre_tasks.len()
    &&& forall|j: int| 0 <= j < pre_tasks.len() && j != k ==> #[trigger] post_tasks[j] == pre_tasks[j]
    &&& nt.id == t.id
    &&& nt.meta == t.meta
    &&& nt.reply == t.reply
    &&& nt.subcore_cursors == t.subcore_cursors
    &&& nt.last_error == t.last_error
    &&& nt.tasks@ == t.tasks@.update(b.task_index as int, d)
    &&& nt.lane_isrun@ == (if (b.lane_slot as int) < 5 {
        t.lane_isrun@.update(b.lane_slot as int, true)
    } else {
        t.lane_isrun@
    })
}

impl NpuSchedulerState {
    /// `core` is free, the submit of `b` is live and `b` names one of its tasks.
    pub open spec fn can_dispatch(&self, core: int, b: CoreRunBinding) -> bool {
        let k = first_task_index(self.tasks@, b.task_id);
        &&& self.core_binding[core].is_none()
        &&& k >= 0
        &&& (b.task_index as int) < self.tasks@[k].tasks@.len()
    }

    /// Nothing observable changed between two states.
    pub open spec fn same_state(&self, other: &Self) -> bool {
        &&& self.tasks@ == other.tasks@
        &&& self.ready@ == other.ready@
        &&& self.running@ == other.running@
        &&& self.complete@ == other.complete@
        &&& self.core_binding == other.core_binding
        &&& self.next_task_id == other.next_task_id
        &&& self.worker_started == other.worker_started
    }

    /// Insert one queued submit into the ready queue and assign it a fresh id.
    pub fn enqueue_task(&mut self, queued_submit: RknpuQueuedSubmit) -> (id: RknpuQueueTaskId)
        ensures
            id == old(self).next_task_id,
            final(self).next_task_id == (if old(self).next_task_id == u64::MAX {
                0
            } else {
                (old(self).next_task_id + 1) as u64
            }),
            final(self).tasks@ == put_task(old(self).tasks@, RknpuQueueTask::spec_new(id, queued_submit)),
            final(self).ready@ == pushed_bucket(old(self).ready@, queued_submit.meta.priority, id),
            final(self).running@ == old(self).running@,
            final(self).complete@ == old(self).complete@,
            final(self).core_binding == old(self).core_binding,
            final(self).worker_started == old(self).worker_started,
            old(self).wf() ==> final(self).wf(),
    {
        let task_id = self.next_task_id;
        self.next_task_id = self.next_task_id.wrapping_add(1);
        let task = RknpuQueueTask::new(task_id, queued_submit);
        let priority = task.meta.priority;
        proof {
            if ids_unique(self.tasks@) {
                lemma_unique_put(self.tasks@, task);
            }
        }
        put_task_exec(&mut self.tasks, task);
        push_bucket(&mut self.ready, priority, task_id);
        task_id
    }

    /// Remove one terminal submit from the completion list.
    pub fn take_terminal_task(&mut self, task_id: RknpuQueueTaskId) -> (r: Option<RknpuQueueTask>)
        ensures
            ({
                let k = first_task_index(old(self).complete@, task_id);
                &&& r == (if k >= 0 { Some(old(self).complete@[k]) } else { None })
                &&& final(self).complete@ == (if k >= 0 { old(self).complete@.remove(k) } else { old(self).complete@ })
            }),
            final(self).tasks@ == old(self).tasks@,
            final(self).ready@ == old(self).ready@,
            final(self).running@ == old(self).running@,
            final(self).core_binding == old(self).core_binding,
            final(self).next_task_id == old(self).next_task_id,
            final(self).worker_started == old(self).worker_started,
            old(self).wf() ==> final(self).wf(),
            old(self).wf() ==> first_task_index(final(self).complete@, task_id) < 0,
    {
        match find_task(&self.complete, task_id) {
            Some(k) => {
                proof {
                    if ids_unique(self.complete@) {
                        lemma_unique_remove(self.complete@, k as int);
                        lemma_unique_remove_found(self.complete@, task_id);
                    }
                }
                Some(self.complete.remove(k))
            },
            None => None,
        }
    }

    /// Bind one lane to a core and build the driver-call snapshot for it.
    pub fn prepare_dispatch(&mut self, core_slot: usize, binding: CoreRunBinding) -> (r: Option<
        DispatchSetup,
    >)
        requires
            core_slot < NPU_MAX_CORES,
        ensures
            r.is_some() == old(self).can_dispatch(core_slot as int, binding),
            r.is_some() ==> dispatch_effect(
                old(self).tasks@,
                old(self).core_binding,
                final(self).tasks@,
                final(self).core_binding,
                core_slot as int,
                binding,
                r.unwrap(),
            ),
            r.is_some() ==> {
                &&& final(self).ready@ == old(self).ready@
                &&& final(self).running@ == old(self).running@
                &&& final(self).complete@ == old(self).complete@
                &&& final(self).next_task_id == old(self).next_task_id
                &&& final(self).worker_started == old(self).worker_started
            },
            r.is_none() ==> final(self).same_state(old(self)),
            old(self).wf() ==> final(self).wf(),
    {
        if self.core_binding[core_slot].is_some() {
            return None;
        }
        let k = match find_task(&self.tasks, binding.task_id) {
            Some(k) => k,
            None => {
                return None;
            },
        };
        let idx = binding.task_index as usize;
        if idx >= self.tasks[k].tasks.len() {
            return None;
        }
        let ghost pre_tasks = self.tasks@;
        let mut task = self.tasks.remove(k);
        let mut d = task.tasks[idx];
        d.int_status = 0;
        task.tasks.set(idx, d);
        task.mark_lane_running(binding.lane_slot as usize);
        let setup = DispatchSetup {
            core_slot,
            binding,
            submit_flags: task.meta.flags,
            task_total: task.tasks.len() as u32,
            task_array_dma_address: task.meta.task_array_dma_address,
            task: d,
        };
        self.tasks.insert(k, task);
        assert(self.tasks@ =~= pre_tasks.update(k as int, self.tasks@[k as int]));
        self.core_binding[core_slot] = Some(binding);
        Some(setup)
    }
}


impl NpuSchedulerState {
    /// Move a submit between ready, running and complete after its state
    /// changed. Returns its id when it became terminal.
    pub fn reclassify_task(&mut self, task_id: RknpuQueueTaskId) -> (r: Option<RknpuQueueTaskId>)
        ensures
            ({
                let r1 = without_id(old(self).ready@, task_id);
                let r2 = without_id(old(self).running@, task_id);
                let k = first_task_index(old(self).tasks@, task_id);
                if k < 0 {
                    &&& r.is_none()
                    &&& final(self).ready@ == r1
                    &&& final(self).running@ == r2
                    &&& final(self).tasks@ == old(self).tasks@
                    &&& final(self).complete@ == old(self).complete@
                } else {
                    let t = old(self).tasks@[k];
                    if t.spec_terminal_success() || t.spec_terminal_fault() {
                        &&& r == Some(task_id)
                        &&& final(self).ready@ == r1
                        &&& final(self).running@ == r2
                        &&& final(self).tasks@ == old(self).tasks@.remove(k)
                        &&& final(self).complete@ == put_task(old(self).complete@, t)
                    } else {
                        &&& r.is_none()
                        &&& final(self).tasks@ == old(self).tasks@
                        &&& final(self).complete@ == old(self).complete@
                        &&& final(self).running@ == (if t.spec_has_running() {
                            pushed_bucket(r2, t.meta.priority, task_id)
                        } else {
                            r2
                        })
                        &&& final(self).ready@ == (if !t.spec_has_running()
                            && t.spec_has_dispatchable() {
                            pushed_bucket(r1, t.meta.priority, task_id)
                        } else {
                            r1
                        })
                    }
                }
            }),
            final(self).core_binding == old(self).core_binding,
            final(self).next_task_id == old(self).next_task_id,
            final(self).worker_started == old(self).worker_started,
            old(self).wf() ==> final(self).wf(),
    {
        remove_from_buckets(&mut self.ready, task_id);
        remove_from_buckets(&mut self.running, task_id);
        let k = match find_task(&self.tasks, task_id) {
            Some(k) => k,
            None => {
                return None;
            },
        };
        let priority = self.tasks[k].meta.priority;
        let has_running = self.tasks[k].has_running_lanes();
        let has_dispatchable = self.tasks[k].has_dispatchable_lane();
        let terminal_success = self.tasks[k].is_terminal_success();
        let terminal_fault = self.tasks[k].is_terminal_fault();
        if terminal_success || terminal_fault {
            proof {
                if ids_unique(self.tasks@) {
                    lemma_unique_remove(self.tasks@, k as int);
                }
                if ids_unique(self.complete@) {
                    lemma_unique_put(self.complete@, self.tasks@[k as int]);
                }
            }
            let t = self.tasks.remove(k);
            put_task_exec(&mut self.complete, t);
            return Some(task_id);
        }
        if has_running {
            push_bucket(&mut self.running, priority, task_id);
        } else if has_dispatchable {
            push_bucket(&mut self.ready, priority, task_id);
        }
        None
    }

    /// Reserve a dispatch from an already-running submit.
    pub fn prepare_dispatch_from_running(&mut self, core_slot: usize) -> (r: Option<DispatchSetup>)
        requires
            core_slot < NPU_MAX_CORES,
        ensures
            ({
                let o = old(self).running_offer(core_slot as int);
                &&& o.is_none() ==> r.is_none()
                &&& o.is_some() ==> r.is_some() == old(self).can_dispatch(core_slot as int, o.unwrap())
                &&& r.is_some() ==> dispatch_effect(
                    old(self).tasks@,
                    old(self).core_binding,
                    final(self).tasks@,
                    final(self).core_binding,
                    core_slot as int,
                    o.unwrap(),
                    r.unwrap(),
                )
            }),
            r.is_some() ==> {
                &&& final(self).ready@ == old(self).ready@
                &&& final(self).running@ == old(self).running@
                &&& final(self).complete@ == old(self).complete@
                &&& final(self).next_task_id == old(self).next_task_id
                &&& final(self).worker_started == old(self).worker_started
            },
            r.is_none() ==> final(self).same_state(old(self)),
            old(self).wf() ==> final(self).wf(),
    {
        let binding = match self.find_running_candidate_for_core(core_slot) {
            Some(b) => b,
            None => {
                return None;
            },
        };
        self.prepare_dispatch(core_slot, binding)
    }

    /// Promote one ready submit to running and reserve its first dispatch.
    ///
    /// When a ready submit was picked it stays promoted even if the core
    /// binding could not be made.
    pub fn promote_ready_and_prepare_dispatch(&mut self, core_slot: usize) -> (r: Option<
        DispatchSetup,
    >)
        requires
            core_slot < NPU_MAX_CORES,
        ensures
            ({
                let i = old(self).pick(old(self).ready@, core_slot as int);
                if i < 0 {
                    r.is_none() && final(self).same_state(old(self))
                } else {
                    let id = old(self).ready@[i].task_id;
                    let k = first_task_index(old(self).tasks@, id);
                    let t = old(self).tasks@[k];
                    let b = next_binding(t, id).unwrap();
                    &&& final(self).ready@ == old(self).ready@.remove(i)
                    &&& final(self).running@ == pushed_bucket(old(self).running@, t.meta.priority, id)
                    &&& r.is_some() == old(self).can_dispatch(core_slot as int, b)
                    &&& r.is_some() ==> dispatch_effect(
                        old(self).tasks@,
                        old(self).core_binding,
                        final(self).tasks@,
                        final(self).core_binding,
                        core_slot as int,
                        b,
                        r.unwrap(),
                    )
                    &&& r.is_none() ==> final(self).tasks@ == old(self).tasks@
                        && final(self).core_binding == old(self).core_binding
                    &&& final(self).complete@ == old(self).complete@
                    &&& final(self).next_task_id == old(self).next_task_id
                    &&& final(self).worker_started == old(self).worker_started
                }
            }),
            old(self).wf() ==> final(self).wf(),
    {
        let ghost p = |j: int| old(self).serves(old(self).ready@[j], core_slot as int);
        proof {
            lemma_first_true(p, old(self).ready@.len());
        }
        let task_id = match self.pop_ready_candidate_for_core(core_slot) {
            Some(id) => id,
            None => {
                return None;
            },
        };
        let k = match find_task(&self.tasks, task_id) {
            Some(k) => k,
            None => {
                return None;
            },
        };
        let priority = self.tasks[k].meta.priority;
        push_bucket(&mut self.running, priority, task_id);
        let lane = self.tasks[k].next_dispatchable_lane();
        proof {
            lemma_next_binding(self.tasks@[k as int], task_id, lane);
        }
        let (lane_slot, task_index) = match lane {
            Some(pair) => pair,
            None => {
                return None;
            },
        };
        let binding = CoreRunBinding { task_id, lane_slot: lane_slot as u8, task_index };
        self.prepare_dispatch(core_slot, binding)
    }

    /// Check whether any running submit can fill one of the listed cores.
    pub fn has_running_candidate_for_any(&self, idle_cores: &[usize]) -> (b: bool)
        ensures
            b == exists|j: int|
                0 <= j < idle_cores@.len() && #[trigger] self.running_offer(idle_cores@[j] as int)
                    is Some,
    {
        let mut j: usize = 0;
        while j < idle_cores.len()
            invariant
                j <= idle_cores@.len(),
                forall|m: int| 0 <= m < j ==> !(#[trigger] self.running_offer(idle_cores@[m] as int) is Some),
            decreases idle_cores@.len() - j,
        {
            if self.find_running_candidate_for_core(idle_cores[j]).is_some() {
                return true;
            }
            j = j + 1;
        }
        false
    }
}


/// `post` is `pre` after one harvested completion of task `idx` on lane
/// `lane` with observed status `observed`: the status kept in the descriptor
/// is the observed one restricted to its expected mask, the lane completes,
/// and a completion that carried no expected bit at all records a task error.
pub open spec fn completion_recorded(
    pre: RknpuQueueTask,
    post: RknpuQueueTask,
    lane: usize,
    idx: int,
    observed: u32,
) -> bool {
    let d = pre.tasks@[idx];
    let last = observed & d.int_mask;
    let nd = RknpuTask { int_status: last, ..d };
    let task_error = observed != 0 && last == 0;
    &&& post.id == pre.id
    &&& post.meta == pre.meta
    &&& post.reply == pre.reply
    &&& post.tasks@ == pre.tasks@.update(idx, nd)
    &&& post.lane_isrun@ == (if lane < 5 {
        pre.lane_isrun@.update(lane as int, false)
    } else {
        pre.lane_isrun@
    })
    &&& post.subcore_cursors@ == (match pre.meta.spec_lane_range(lane as int) {
        Some(range) => pre.subcore_cursors@.update(
            lane as int,
            if crate::taskqueen::sat_add_u32(pre.subcore_cursors[lane as int], 1) < range.task_number {
                crate::taskqueen::sat_add_u32(pre.subcore_cursors[lane as int], 1)
            } else {
                range.task_number
            },
        ),
        None => pre.subcore_cursors@,
    })
    &&& post.last_error == (if task_error { Some(RknpuError::TaskError) } else { pre.last_error })
}

/// `post` is `pre` with lane `lane` released and `err` recorded.
pub open spec fn failure_recorded(
    pre: RknpuQueueTask,
    post: RknpuQueueTask,
    lane: usize,
    err: RknpuError,
) -> bool {
    &&& post.id == pre.id
    &&& post.meta == pre.meta
    &&& post.reply == pre.reply
    &&& post.tasks@ == pre.tasks@
    &&& post.subcore_cursors == pre.subcore_cursors
    &&& post.last_error == Some(err)
    &&& post.lane_isrun@ == (if lane < 5 {
        pre.lane_isrun@.update(lane as int, false)
    } else {
        pre.lane_isrun@
    })
}

impl NpuSchedulerState {
    /// Record one harvested core completion: release the core and update the
    /// bound submit. Returns the released binding when a live submit was
    /// updated; the caller then reclassifies that submit.
    pub fn record_completion(&mut self, completion: CoreCompletion) -> (r: Option<CoreRunBinding>)
        ensures
            ({
                let core = completion.core_slot as int;
                let cb = if core < 3 { old(self).core_binding[core] } else { None };
                &&& core < 3 ==> final(self).core_binding@ == old(self).core_binding@.update(core, None)
                &&& core >= 3 ==> final(self).core_binding == old(self).core_binding
                &&& match cb {
                    None => r.is_none() && final(self).tasks@ == old(self).tasks@,
                    Some(b) => {
                        let k = first_task_index(old(self).tasks@, b.task_id);
                        if k < 0 {
                            r.is_none() && final(self).tasks@ == old(self).tasks@
                        } else {
                            &&& r == Some(b)
                            &&& final(self).tasks@.len() == old(self).tasks@.len()
                            &&& forall|j: int|
                                0 <= j < old(self).tasks@.len() && j != k ==> #[trigger] final(self).tasks@[j]
                                    == old(self).tasks@[j]
                            &&& if (b.task_index as int) < old(self).tasks@[k].tasks@.len() {
                                completion_recorded(
                                    old(self).tasks@[k],
                                    final(self).tasks@[k],
                                    b.lane_slot as usize,
                                    b.task_index as int,
                                    completion.observed_irq_status,
                                )
                            } else {
                                failure_recorded(
                                    old(self).tasks@[k],
                                    final(self).tasks@[k],
                                    b.lane_slot as usize,
                                    RknpuError::InvalidParameter,
                                )
                            }
                        }
                    },
                }
            }),
            final(self).ready@ == old(self).ready@,
            final(self).running@ == old(self).running@,
            final(self).complete@ == old(self).complete@,
            final(self).next_task_id == old(self).next_task_id,
            final(self).worker_started == old(self).worker_started,
            old(self).wf() ==> final(self).wf(),
    {
        let core = completion.core_slot as usize;
        if core >= NPU_MAX_CORES {
            return None;
        }
        let binding = match self.core_binding[core] {
            Some(b) => b,
            None => {
                return None;
            },
        };
        self.core_binding[core] = None;
        let k = match find_task(&self.tasks, binding.task_id) {
            Some(k) => k,
            None => {
                return None;
            },
        };
        let ghost pre_tasks = self.tasks@;
        let mut task = self.tasks.remove(k);
        let idx = binding.task_index as usize;
        if idx < task.tasks.len() {
            let mut d = task.tasks[idx];
            let last_task_int_status = completion.observed_irq_status & d.int_mask;
            let task_error = completion.observed_irq_status != 0 && last_task_int_status == 0;
            d.int_status = last_task_int_status;
            task.tasks.set(idx, d);
            task.complete_lane(binding.lane_slot as usize);
            if task_error {
                task.last_error = Some(RknpuError::TaskError);
            }
        } else {
            task.fail_lane(binding.lane_slot as usize, RknpuError::InvalidParameter);
        }
        self.tasks.insert(k, task);
        assert(self.tasks@ =~= pre_tasks.update(k as int, self.tasks@[k as int]));
        Some(binding)
    }

    /// Record a failed dispatch: release the core and mark the bound lane as
    /// failed with `err`. Returns true when a live submit was updated; the
    /// caller then reclassifies it.
    pub fn record_dispatch_failure(
        &mut self,
        core_slot: usize,
        binding: CoreRunBinding,
        err: RknpuError,
    ) -> (updated: bool)
        requires
            core_slot < NPU_MAX_CORES,
        ensures
            final(self).core_binding@ == old(self).core_binding@.update(core_slot as int, None),
            ({
                let k = first_task_index(old(self).tasks@, binding.task_id);
                &&& updated == (k >= 0)
                &&& k < 0 ==> final(self).tasks@ == old(self).tasks@
                &&& k >= 0 ==> {
                    &&& final(self).tasks@.len() == old(self).tasks@.len()
                    &&& forall|j: int|
                        0 <= j < old(self).tasks@.len() && j != k ==> #[trigger] final(self).tasks@[j]
                            == old(self).tasks@[j]
                    &&& failure_recorded(
                        old(self).tasks@[k],
                        final(self).tasks@[k],
                        binding.lane_slot as usize,
                        err,
                    )
                }
            }),
            final(self).ready@ == old(self).ready@,
            final(self).running@ == old(self).running@,
            final(self).complete@ == old(self).complete@,
            final(self).next_task_id == old(self).next_task_id,
            final(self).worker_started == old(self).worker_started,
            old(self).wf() ==> final(self).wf(),
    {
        self.core_binding[core_slot] = None;
        match find_task(&self.tasks, binding.task_id) {
            Some(k) => {
                let ghost pre_tasks = self.tasks@;
                let mut task = self.tasks.remove(k);
                task.fail_lane(binding.lane_slot as usize, err);
                self.tasks.insert(k, task);
                assert(self.tasks@ =~= pre_tasks.update(k as int, self.tasks@[k as int]));
                true
            },
            None => false,
        }
    }

    /// Record an error on a terminal submit (used when the post-run cache
    /// preparation failed).
    pub fn record_terminal_error(&mut self, task_id: RknpuQueueTaskId, err: RknpuError)
        ensures
            ({
                let k = first_task_index(old(self).complete@, task_id);
                &&& k < 0 ==> final(self).complete@ == old(self).complete@
                &&& k >= 0 ==> {
                    &&& final(self).complete@.len() == old(self).complete@.len()
                    &&& forall|j: int|
                        0 <= j < old(self).complete@.len() && j != k ==> #[trigger] final(self).complete@[j]
                            == old(self).complete@[j]
                    &&& final(self).complete@[k].last_error == Some(err)
                    &&& final(self).complete@[k].id == old(self).complete@[k].id
                    &&& final(self).complete@[k].meta == old(self).complete@[k].meta
                    &&& final(self).complete@[k].reply == old(self).complete@[k].reply
                    &&& final(self).complete@[k].tasks@ == old(self).complete@[k].tasks@
                    &&& final(self).complete@[k].subcore_cursors == old(self).complete@[k].subcore_cursors
                    &&& final(self).complete@[k].lane_isrun == old(self).complete@[k].lane_isrun
                }
            }),
            final(self).tasks@ == old(self).tasks@,
            final(self).ready@ == old(self).ready@,
            final(self).running@ == old(self).running@,
            final(self).core_binding == old(self).core_binding,
            final(self).next_task_id == old(self).next_task_id,
            final(self).worker_started == old(self).worker_started,
            old(self).wf() ==> final(self).wf(),
    {
        if let Some(k) = find_task(&self.complete, task_id) {
            let ghost pre = self.complete@;
            let mut task = self.complete.remove(k);
            task.last_error = Some(err);
            self.complete.insert(k, task);
            assert(self.complete@ =~= pre.update(k as int, self.complete@[k as int]));
        }
    }
}


impl NpuSchedulerState {
    /// A core that is free and offered work by the running queue.
    pub open spec fn running_fits(&self, c: int) -> bool {
        self.core_binding[c].is_none() && self.running_offer(c) is Some
    }

    /// A core that is free and served by some ready submit.
    pub open spec fn ready_fits(&self, c: int) -> bool {
        self.core_binding[c].is_none() && self.pick(self.ready@, c) >= 0
    }

    /// An offer of the running queue to a free core can always be bound.
    pub proof fn lemma_running_offer_dispatchable(&self, c: int)
        requires
            0 <= c < 3,
            self.running_fits(c),
        ensures
            self.can_dispatch(c, self.running_offer(c).unwrap()),
    {
        let p = |i: int| self.serves(self.running@[i], c);
        lemma_first_true(p, self.running@.len());
        let i = self.pick(self.running@, c);
        let id = self.running@[i].task_id;
        let k = first_task_index(self.tasks@, id);
        let t = self.tasks@[k];
        let q = |l: int| t.lane_dispatchable(l);
        lemma_first_true(q, 5);
        lemma_first_task_index_bounds(self.tasks@, self.running_offer(c).unwrap().task_id, self.tasks@.len());
    }

    /// A ready submit serving a free core can always be bound there.
    pub proof fn lemma_ready_pick_dispatchable(&self, c: int)
        requires
            0 <= c < 3,
            self.ready_fits(c),
        ensures
            ({
                let i = self.pick(self.ready@, c);
                let id = self.ready@[i].task_id;
                let k = first_task_index(self.tasks@, id);
                &&& k >= 0
                &&& next_binding(self.tasks@[k], id) is Some
                &&& self.can_dispatch(c, next_binding(self.tasks@[k], id).unwrap())
            }),
    {
        let p = |i: int| self.serves(self.ready@[i], c);
        lemma_first_true(p, self.ready@.len());
        let i = self.pick(self.ready@, c);
        let id = self.ready@[i].task_id;
        let k = first_task_index(self.tasks@, id);
        let t = self.tasks@[k];
        let q = |l: int| t.lane_dispatchable(l);
        lemma_first_true(q, 5);
        lemma_first_task_index_bounds(self.tasks@, id, self.tasks@.len());
        let l = choose|l: int| t.lane_dispatchable(l);
        assert(q(l));
    }

    /// Two states with the same contents make the same offers.
    pub proof fn lemma_same_state_offers(&self, other: &Self, c: int)
        requires
            self.same_state(other),
        ensures
            self.running_offer(c) == other.running_offer(c),
            self.pick(self.ready@, c) == other.pick(other.ready@, c),
            self.pick(self.running@, c) == other.pick(other.running@, c),
            self.running_fits(c) == other.running_fits(c),
            self.ready_fits(c) == other.ready_fits(c),
            forall|b: CoreRunBinding| #[trigger] self.can_dispatch(c, b) == other.can_dispatch(c, b),
    {
        let p1 = |i: int| self.serves(self.ready@[i], c);
        let p2 = |i: int| other.serves(other.ready@[i], c);
        lemma_first_true_ext(p1, p2, self.ready@.len());
        let q1 = |i: int| self.serves(self.running@[i], c);
        let q2 = |i: int| other.serves(other.running@[i], c);
        lemma_first_true_ext(q1, q2, self.running@.len());
    }

    /// Choose the next dispatch for the free cores.
    ///
    /// Work of submits that already run is preferred: the lowest free core
    /// offered such work gets it. Only when no free core is offered running
    /// work, the lowest free core served by a ready submit promotes that
    /// submit and gets its first lane.
    pub fn select_dispatch(&mut self) -> (r: Option<DispatchSetup>)
        ensures
            ({
                let ca = first_true_upto(|c: int| old(self).running_fits(c), 3);
                let cb = first_true_upto(|c: int| old(self).ready_fits(c), 3);
                if ca >= 0 {
                    &&& r is Some
                    &&& r.unwrap().core_slot == ca
                    &&& dispatch_effect(
                        old(self).tasks@,
                        old(self).core_binding,
                        final(self).tasks@,
                        final(self).core_binding,
                        ca,
                        old(self).running_offer(ca).unwrap(),
                        r.unwrap(),
                    )
                    &&& final(self).ready@ == old(self).ready@
                    &&& final(self).running@ == old(self).running@
                    &&& final(self).complete@ == old(self).complete@
                } else if cb >= 0 {
                    let i = old(self).pick(old(self).ready@, cb);
                    let id = old(self).ready@[i].task_id;
                    let t = old(self).tasks@[first_task_index(old(self).tasks@, id)];
                    &&& r is Some
                    &&& r.unwrap().core_slot == cb
                    &&& final(self).ready@ == old(self).ready@.remove(i)
                    &&& final(self).running@ == pushed_bucket(old(self).running@, t.meta.priority, id)
                    &&& dispatch_effect(
                        old(self).tasks@,
                        old(self).core_binding,
                        final(self).tasks@,
                        final(self).core_binding,
                        cb,
                        next_binding(t, id).unwrap(),
                        r.unwrap(),
                    )
                    &&& final(self).complete@ == old(self).complete@
                } else {
                    r is None && final(self).same_state(old(self))
                }
            }),
            final(self).next_task_id == old(self).next_task_id,
            final(self).worker_started == old(self).worker_started,
            old(self).wf() ==> final(self).wf(),
    {
        let ghost pa = |c: int| old(self).running_fits(c);
        let ghost pb = |c: int| old(self).ready_fits(c);
        proof {
            lemma_first_true(pa, 3);
            lemma_first_true(pb, 3);
        }
        let mut running_has_candidate = false;
        let mut c: usize = 0;
        while c < NPU_MAX_CORES
            invariant
                c <= NPU_MAX_CORES,
                self.same_state(old(self)),
                pa == (|c: int| old(self).running_fits(c)),
                running_has_candidate == exists|d: int| 0 <= d < c && #[trigger] pa(d),
            decreases NPU_MAX_CORES - c,
        {
            proof {
                self.lemma_same_state_offers(old(self), c as int);
            }
            if self.core_binding[c].is_none() && self.find_running_candidate_for_core(c).is_some() {
                assert(pa(c as int));
                running_has_candidate = true;
            }
            c = c + 1;
        }
        let mut c: usize = 0;
        while c < NPU_MAX_CORES
            invariant
                c <= NPU_MAX_CORES,
                self.same_state(old(self)),
                pa == (|c: int| old(self).running_fits(c)),
                pb == (|c: int| old(self).ready_fits(c)),
                running_has_candidate == exists|d: int| 0 <= d < 3 && #[trigger] pa(d),
                forall|d: int| 0 <= d < c ==> !#[trigger] pa(d),
                !running_has_candidate ==> forall|d: int| 0 <= d < c ==> !#[trigger] pb(d),
            decreases NPU_MAX_CORES - c,
        {
            if self.core_binding[c].is_none() {
                proof {
                    self.lemma_same_state_offers(old(self), c as int);
                    if pa(c as int) {
                        old(self).lemma_running_offer_dispatchable(c as int);
                    }
                }
                let setup = self.prepare_dispatch_from_running(c);
                if setup.is_some() {
                    proof {
                        lemma_first_true_at(pa, c as int, 3);
                    }
                    return setup;
                }
                if !running_has_candidate {
                    proof {
                        self.lemma_same_state_offers(old(self), c as int);
                        if pb(c as int) {
                            old(self).lemma_ready_pick_dispatchable(c as int);
                        }
                    }
                    let setup = self.promote_ready_and_prepare_dispatch(c);
                    if setup.is_some() {
                        proof {
                            lemma_first_true_at(pb, c as int, 3);
                            lemma_none_true(pa, 3);
                        }
                        return setup;
                    }
                }
            }
            c = c + 1;
        }
        proof {
            lemma_none_true(pa, 3);
            if !running_has_candidate {
                lemma_none_true(pb, 3);
            }
        }
        None
    }
}


impl NpuSchedulerState {
    /// Withdraw a submit whose waiter gave up: a terminal submit is dropped;
    /// a live one records `Interrupted` and is dropped as soon as no lane of
    /// it still runs, otherwise it stays until its running lanes drain.
    pub fn abort_submit(&mut self, task_id: RknpuQueueTaskId)
        ensures
            old(self).wf() ==> final(self).wf(),
            first_task_index(old(self).complete@, task_id) >= 0 ==> {
                &&& final(self).complete@ == old(self).complete@.remove(
                    first_task_index(old(self).complete@, task_id),
                )
                &&& final(self).tasks@ == old(self).tasks@
                &&& final(self).ready@ == old(self).ready@
                &&& final(self).running@ == old(self).running@
            },
            first_task_index(old(self).complete@, task_id) < 0 && first_task_index(
                old(self).tasks@,
                task_id,
            ) < 0 ==> {
                &&& final(self).complete@ == old(self).complete@
                &&& final(self).tasks@ == old(self).tasks@
                &&& final(self).ready@ == without_id(old(self).ready@, task_id)
                &&& final(self).running@ == without_id(old(self).running@, task_id)
            },
            ({
                let k = first_task_index(old(self).tasks@, task_id);
                let t = old(self).tasks@[k];
                first_task_index(old(self).complete@, task_id) < 0 && k >= 0 && t.spec_has_running()
                    ==> {
                    &&& final(self).complete@ == old(self).complete@
                    &&& final(self).ready@ == without_id(old(self).ready@, task_id)
                    &&& final(self).running@ == pushed_bucket(
                        without_id(old(self).running@, task_id),
                        t.meta.priority,
                        task_id,
                    )
                    &&& final(self).tasks@.len() == old(self).tasks@.len()
                    &&& forall|j: int|
                        0 <= j < old(self).tasks@.len() && j != k ==> #[trigger] final(self).tasks@[j]
                            == old(self).tasks@[j]
                    &&& final(self).tasks@[k].last_error == Some(RknpuError::Interrupted)
                    &&& final(self).tasks@[k].id == t.id
                    &&& final(self).tasks@[k].meta == t.meta
                    &&& final(self).tasks@[k].tasks@ == t.tasks@
                    &&& final(self).tasks@[k].subcore_cursors == t.subcore_cursors
                    &&& final(self).tasks@[k].lane_isrun == t.lane_isrun
                }
            }),
            ({
                let k = first_task_index(old(self).tasks@, task_id);
                let t = old(self).tasks@[k];
                first_task_index(old(self).complete@, task_id) < 0 && k >= 0 && !t.spec_has_running()
                    ==> {
                    &&& final(self).complete@ == old(self).complete@
                    &&& final(self).ready@ == without_id(old(self).ready@, task_id)
                    &&& final(self).running@ == without_id(old(self).running@, task_id)
                    &&& final(self).tasks@ == old(self).tasks@.remove(k)
                }
            }),
            final(self).core_binding == old(self).core_binding,
            final(self).next_task_id == old(self).next_task_id,
            final(self).worker_started == old(self).worker_started,
            old(self).wf() ==> first_task_index(final(self).complete@, task_id) < 0,
    {
        if let Some(kc) = find_task(&self.complete, task_id) {
            proof {
                if ids_unique(self.complete@) {
                    lemma_unique_remove(self.complete@, kc as int);
                    lemma_unique_remove_found(self.complete@, task_id);
                }
            }
            self.complete.remove(kc);
            return;
        }
        let ghost c0 = self.complete@;
        if let Some(k) = find_task(&self.tasks, task_id) {
            let ghost pre = self.tasks@;
            let mut task = self.tasks.remove(k);
            task.last_error = Some(RknpuError::Interrupted);
            self.tasks.insert(k, task);
            assert(self.tasks@ =~= pre.update(k as int, self.tasks@[k as int]));
            proof {
                lemma_first_task_index_bounds(pre, task_id, pre.len());
                lemma_first_task_index_bounds(self.tasks@, task_id, self.tasks@.len());
                lemma_first_task_index_same(pre, self.tasks@, task_id, pre.len());
                assert(first_task_index(self.tasks@, task_id) == k);
                assert(self.tasks@[k as int].lane_isrun == pre[k as int].lane_isrun);
                assert(self.tasks@[k as int].spec_has_running() == pre[k as int].spec_has_running());
                assert(!self.tasks@[k as int].spec_terminal_success());
            }
        }
        let ghost mid_tasks = self.tasks@;
        let terminal = self.reclassify_task(task_id);
        if terminal.is_some() {
            proof {
                lemma_first_task_index_bounds(c0, task_id, c0.len());
                lemma_put_then_first(c0, self.complete@, task_id);
            }
            if let Some(kc) = find_task(&self.complete, task_id) {
                self.complete.remove(kc);
                assert(self.complete@ =~= c0);
            }
        }
    }
}

/// Replacing entries by entries with the same ids keeps first-match indices.
pub proof fn lemma_first_task_index_same(
    a: Seq<RknpuQueueTask>,
    b: Seq<RknpuQueueTask>,
    id: u64,
    n: nat,
)
    requires
        n <= a.len(),
        a.len() == b.len(),
        forall|j: int| 0 <= j < a.len() ==> #[trigger] a[j].id == b[j].id,
    ensures
        first_task_index_upto(a, id, n) == first_task_index_upto(b, id, n),
    decreases n,
{
    if n > 0 {
        lemma_first_task_index_same(a, b, id, (n - 1) as nat);
    }
}

/// Appending a submit whose id was absent makes it the first match.
pub proof fn lemma_put_then_first(c0: Seq<RknpuQueueTask>, c1: Seq<RknpuQueueTask>, id: u64)
    requires
        first_task_index(c0, id) == -1,
        exists|t: RknpuQueueTask| t.id == id && c1 == #[trigger] put_task(c0, t),
    ensures
        first_task_index(c1, id) == c0.len(),
        c1.remove(c0.len() as int) =~= c0,
{
    let t = choose|t: RknpuQueueTask| t.id == id && c1 == #[trigger] put_task(c0, t);
    lemma_first_task_index_bounds(c0, id, c0.len());
    assert(c1 == c0.push(t));
    assert forall|j: int| 0 <= j < c0.len() implies c1[j] == c0[j] by {}
    lemma_first_task_index_prefix(c0, c1, id, c0.len());
    lemma_first_task_index_stable(c1, id, c0.len(), c1.len());
}

/// First-match indices only look at the prefix they range over.
pub proof fn lemma_first_task_index_prefix(
    a: Seq<RknpuQueueTask>,
    b: Seq<RknpuQueueTask>,
    id: u64,
    n: nat,
)
    requires
        n <= a.len(),
        n <= b.len(),
        forall|j: int| 0 <= j < n ==> #[trigger] a[j] == b[j],
    ensures
        first_task_index_upto(a, id, n) == first_task_index_upto(b, id, n),
    decreases n,
{
    if n > 0 {
        lemma_first_task_index_prefix(a, b, id, (n - 1) as nat);
    }
}


/// Among the ready submits that could serve a core, the one picked has the
/// smallest priority value: a lower value runs first.
pub proof fn law_ready_pick_lowest_priority(state: NpuSchedulerState, core: int, j: int)
    requires
        state.wf(),
        state.pick(state.ready@, core) >= 0,
        0 <= j < state.ready@.len(),
        state.serves(state.ready@[j], core),
    ensures
        state.ready@[state.pick(state.ready@, core)].priority <= state.ready@[j].priority,
{
    let p = |i: int| state.serves(state.ready@[i], core);
    lemma_first_true(p, state.ready@.len());
    assert(p(j));
}

/// A dispatch only ever binds a free core, and the lane it binds is no longer
/// offered afterwards.
pub proof fn law_dispatch_binds_free_core_once(
    pre: NpuSchedulerState,
    post: NpuSchedulerState,
    core: int,
    b: CoreRunBinding,
    setup: DispatchSetup,
)
    requires
        0 <= core < 3,
        pre.can_dispatch(core, b),
        (b.lane_slot as int) < 5,
        dispatch_effect(pre.tasks@, pre.core_binding, post.tasks@, post.core_binding, core, b, setup),
    ensures
        pre.core_binding[core].is_none(),
        post.core_binding[core] == Some(b),
        !post.tasks@[first_task_index(pre.tasks@, b.task_id)].lane_dispatchable(b.lane_slot as int),
{
}


/// Terminal result of a submit handed back to the ioctl path.
pub struct CompletedSubmit {
    /// Rebuilt submit header.
    pub submit: RknpuSubmit,
    /// Final task shadow, with the harvested `int_status`.
    pub tasks: Vec<RknpuTask>,
    /// Last terminal error recorded for the submit.
    pub last_error: Option<RknpuError>,
}

impl NpuSchedulerState {
    /// Enqueue a submit; also reports whether the worker must be spawned,
    /// which happens for the first submit only.
    pub fn enqueue_submit(&mut self, queued_submit: RknpuQueuedSubmit) -> (r: (RknpuQueueTaskId, bool))
        ensures
            r.0 == old(self).next_task_id,
            r.1 == !old(self).worker_started,
            final(self).worker_started,
            final(self).next_task_id == (if old(self).next_task_id == u64::MAX {
                0
            } else {
                (old(self).next_task_id + 1) as u64
            }),
            final(self).tasks@ == put_task(old(self).tasks@, RknpuQueueTask::spec_new(r.0, queued_submit)),
            final(self).ready@ == pushed_bucket(old(self).ready@, queued_submit.meta.priority, r.0),
            final(self).running@ == old(self).running@,
            final(self).complete@ == old(self).complete@,
            final(self).core_binding == old(self).core_binding,
            old(self).wf() ==> final(self).wf(),
    {
        let spawn_worker = !self.worker_started;
        if spawn_worker {
            self.worker_started = true;
        }
        let task_id = self.enqueue_task(queued_submit);
        (task_id, spawn_worker)
    }

    /// Take a terminal submit and rebuild its ioctl result; `InvalidData`
    /// when no terminal submit has that id. Ids being distinct, the submit
    /// leaves the completion list for good: taking it again fails.
    pub fn take_terminal_submit(&mut self, task_id: RknpuQueueTaskId) -> (r: Result<
        CompletedSubmit,
        RknpuServiceError,
    >)
        ensures
            ({
                let k = first_task_index(old(self).complete@, task_id);
                &&& k < 0 ==> r is Err && r->Err_0 == RknpuServiceError::InvalidData
                &&& k >= 0 ==> r is Ok && r->Ok_0.tasks@ == old(self).complete@[k].tasks@
                    && r->Ok_0.last_error == old(self).complete@[k].last_error
                    && r->Ok_0.submit == spec_build_submit(old(self).complete@[k])
                &&& final(self).complete@ == (if k >= 0 { old(self).complete@.remove(k) } else { old(self).complete@ })
            }),
            final(self).tasks@ == old(self).tasks@,
            final(self).ready@ == old(self).ready@,
            final(self).running@ == old(self).running@,
            final(self).core_binding == old(self).core_binding,
            final(self).next_task_id == old(self).next_task_id,
            final(self).worker_started == old(self).worker_started,
            old(self).wf() ==> final(self).wf(),
            old(self).wf() ==> first_task_index(final(self).complete@, task_id) < 0,
    {
        match self.take_terminal_task(task_id) {
            None => Err(RknpuServiceError::InvalidData),
            Some(task) => {
                let submit = task.build_submit();
                Ok(CompletedSubmit { submit, tasks: task.tasks, last_error: task.last_error })
            },
        }
    }
}


/// What the worker does after one round of harvest and dispatch.
#[derive(Debug, Clone, Copy, PartialEq, Eq, Structural)]
pub enum WorkerStep {
    /// Something happened: go round again at once.
    Again,
    /// Hardware is in flight, or queued work could not be placed: yield,
    /// then go round again.
    YieldThenAgain,
    /// Nothing is live: go back to sleep until new work arrives.
    Sleep,
}

/// The worker's next step after a round that harvested and dispatched as
/// told, in a state with or without work in flight and live work.
pub open spec fn spec_worker_step(harvested: bool, dispatched: bool, has_inflight: bool, has_work: bool) -> WorkerStep {
    if harvested || dispatched {
        WorkerStep::Again
    } else if has_inflight {
        WorkerStep::YieldThenAgain
    } else if !has_work {
        WorkerStep::Sleep
    } else {
        WorkerStep::YieldThenAgain
    }
}

/// Decide the worker's next step: again at once after progress, yield while
/// hardware runs or work is stalled, sleep when nothing is live.
pub fn worker_step(harvested: bool, dispatched: bool, has_inflight: bool, has_work: bool) -> (s: WorkerStep)
    ensures
        s == spec_worker_step(harvested, dispatched, has_inflight, has_work),
{
    if harvested || dispatched {
        WorkerStep::Again
    } else if has_inflight {
        WorkerStep::YieldThenAgain
    } else if !has_work {
        WorkerStep::Sleep
    } else {
        WorkerStep::YieldThenAgain
    }
}

} // verus!
