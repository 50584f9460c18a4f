use rknpu_drivers::err::RknpuError;
use rknpu_drivers::ioctrl::RknpuSubmit;
use rknpu_drivers::job::RknpuTask;
use rknpu_drivers::taskqueen::{RknpuQueueTask, RknpuQueueTaskId, RknpuQueuedSubmit};
use std::collections::{BTreeMap, VecDeque};


#[derive(Debug, Clone, Copy, PartialEq, Eq)]
struct Dispatch {
    task_id: RknpuQueueTaskId,
    lane_slot: u8,
    task_index: u32,
}

#[derive(Default)]
struct TestBuckets {
    next_task_id: RknpuQueueTaskId,
    tasks: BTreeMap<RknpuQueueTaskId, RknpuQueueTask>,
    ready: BTreeMap<i32, VecDeque<RknpuQueueTaskId>>,
    running: BTreeMap<i32, VecDeque<RknpuQueueTaskId>>,
    complete: BTreeMap<RknpuQueueTaskId, RknpuQueueTask>,
}

impl TestBuckets {
    /// Create empty test buckets with deterministic ids.
    fn new() -> Self {
        Self {
            next_task_id: 1,
            ..Self::default()
        }
    }

    /// Insert one queued submit into the test ready queue.
    fn enqueue(&mut self, queued_submit: RknpuQueuedSubmit) -> RknpuQueueTaskId {
        let task_id = self.next_task_id;
        self.next_task_id = self.next_task_id.saturating_add(1);

        let task = RknpuQueueTask::new(task_id, queued_submit);
        let priority = task.meta.priority;
        self.tasks.insert(task_id, task);
        Self::push_bucket(&mut self.ready, priority, task_id);
        task_id
    }

    /// Return true if the task has reached the test completion bucket.
    fn is_terminal(&self, task_id: RknpuQueueTaskId) -> bool {
        self.complete.contains_key(&task_id)
    }

    /// Remove one finished task from the test completion bucket.
    fn take_terminal_task(&mut self, task_id: RknpuQueueTaskId) -> Option<RknpuQueueTask> {
        self.complete.remove(&task_id)
    }

    /// Reserve the next dispatch using the same running-before-ready policy.
    fn reserve_next_dispatch(&mut self, core_slot: usize) -> Option<Dispatch> {
        if let Some(dispatch) = self.find_running_candidate(core_slot) {
            self.tasks
                .get_mut(&dispatch.task_id)?
                .mark_lane_running(dispatch.lane_slot as usize);
            return Some(dispatch);
        }

        let task_id = self.pop_ready_candidate(core_slot)?;
        let priority = self.tasks.get(&task_id)?.meta.priority;
        Self::push_bucket(&mut self.running, priority, task_id);

        let dispatch = self.find_running_candidate(core_slot)?;
        self.tasks
            .get_mut(&dispatch.task_id)?
            .mark_lane_running(dispatch.lane_slot as usize);
        Some(dispatch)
    }

    /// Finish one reserved dispatch and reclassify the owning task.
    fn complete_dispatch(
        &mut self,
        dispatch: Dispatch,
        task_error: bool,
    ) -> Option<RknpuQueueTaskId> {
        if let Some(task) = self.tasks.get_mut(&dispatch.task_id) {
            task.complete_lane(dispatch.lane_slot as usize);
            if task_error {
                task.last_error = Some(RknpuError::TaskError);
            }
        }

        self.reclassify(dispatch.task_id)
    }

    /// Fail one reserved dispatch and reclassify the owning task.
    fn fail_dispatch(
        &mut self,
        dispatch: Dispatch,
        err: RknpuError,
    ) -> Option<RknpuQueueTaskId> {
        if let Some(task) = self.tasks.get_mut(&dispatch.task_id) {
            task.fail_lane(dispatch.lane_slot as usize, err);
        }

        self.reclassify(dispatch.task_id)
    }

    /// Find work from already-running submits that can use this core.
    fn find_running_candidate(&self, core_slot: usize) -> Option<Dispatch> {
        for queue in self.running.values() {
            for task_id in queue {
                let Some(task) = self.tasks.get(task_id) else {
                    continue;
                };
                if !task.allows_core(core_slot) {
                    continue;
                }
                if let Some((lane_slot, task_index)) = task.next_dispatchable_lane() {
                    return Some(Dispatch {
                        task_id: *task_id,
                        lane_slot: lane_slot as u8,
                        task_index,
                    });
                }
            }
        }

        None
    }

    /// Pop the highest-priority ready submit that can run on this core.
    fn pop_ready_candidate(&mut self, core_slot: usize) -> Option<RknpuQueueTaskId> {
        let priorities = self.ready.keys().copied().collect::<Vec<_>>();
        for priority in priorities {
            let mut selected = None;
            if let Some(queue) = self.ready.get(&priority) {
                selected = queue.iter().position(|task_id| {
                    self.tasks.get(task_id).is_some_and(|task| {
                        task.allows_core(core_slot) && task.has_dispatchable_lane()
                    })
                });
            }

            if let Some(index) = selected {
                let task_id = self.ready.get_mut(&priority)?.remove(index)?;
                if self.ready.get(&priority).is_some_and(VecDeque::is_empty) {
                    self.ready.remove(&priority);
                }
                return Some(task_id);
            }

            if self.ready.get(&priority).is_some_and(VecDeque::is_empty) {
                self.ready.remove(&priority);
            }
        }

        None
    }

    /// Move a task to ready, running, or complete after a dispatch event.
    fn reclassify(&mut self, task_id: RknpuQueueTaskId) -> Option<RknpuQueueTaskId> {
        Self::remove_from_buckets(&mut self.ready, task_id);
        Self::remove_from_buckets(&mut self.running, task_id);

        let Some(task) = self.tasks.get(&task_id) else {
            return None;
        };
        let priority = task.meta.priority;
        let has_running = task.has_running_lanes();
        let has_dispatchable = task.has_dispatchable_lane();
        let terminal_success = task.is_terminal_success();
        let terminal_fault = task.is_terminal_fault();

        if terminal_success || terminal_fault {
            if let Some(task) = self.tasks.remove(&task_id) {
                self.complete.insert(task_id, task);
                return Some(task_id);
            }
            return None;
        }

        if has_running {
            Self::push_bucket(&mut self.running, priority, task_id);
        } else if has_dispatchable {
            Self::push_bucket(&mut self.ready, priority, task_id);
        }

        None
    }

    /// Insert a task id into a priority bucket once.
    fn push_bucket(
        buckets: &mut BTreeMap<i32, VecDeque<RknpuQueueTaskId>>,
        priority: i32,
        task_id: RknpuQueueTaskId,
    ) {
        let queue = buckets.entry(priority).or_default();
        if !queue.iter().any(|existing| *existing == task_id) {
            queue.push_back(task_id);
        }
    }

    /// Remove a task id from every bucket and clean up empty queues.
    fn remove_from_buckets(
        buckets: &mut BTreeMap<i32, VecDeque<RknpuQueueTaskId>>,
        task_id: RknpuQueueTaskId,
    ) {
        let priorities = buckets.keys().copied().collect::<Vec<_>>();
        for priority in priorities {
            let mut remove_bucket = false;
            if let Some(queue) = buckets.get_mut(&priority) {
                if let Some(index) = queue.iter().position(|existing| *existing == task_id) {
                    let _ = queue.remove(index);
                }
                remove_bucket = queue.is_empty();
            }
            if remove_bucket {
                buckets.remove(&priority);
            }
        }
    }
}

/// Build a submit descriptor with explicit per-lane ranges.
fn fake_submit(
    task_number: u32,
    priority: i32,
    subcore_tasks: &[(usize, u32, u32)],
) -> RknpuSubmit {
    let mut submit = RknpuSubmit::default();
    submit.timeout = 1000;
    submit.priority = priority;
    submit.task_number = task_number;
    for (slot, start, number) in subcore_tasks {
        submit.subcore_task[*slot].task_start = *start;
        submit.subcore_task[*slot].task_number = *number;
    }
    submit
}

/// Build a submit descriptor that is restricted to a physical-core mask.
fn fake_submit_with_core_mask(
    task_number: u32,
    priority: i32,
    core_mask: u32,
    subcore_tasks: &[(usize, u32, u32)],
) -> RknpuSubmit {
    let mut submit = fake_submit(task_number, priority, subcore_tasks);
    submit.core_mask = core_mask;
    submit
}

/// Build a fake task descriptor with the expected interrupt mask set.
fn fake_task(int_mask: u32) -> RknpuTask {
    RknpuTask {
        int_mask,
        ..RknpuTask::default()
    }
}

#[test]
fn queued_submit_builds_submit_meta() {
    let tasks = vec![RknpuTask::default(), RknpuTask::default()];
    let queued = RknpuQueuedSubmit::new(fake_submit(2, 0, &[(0, 0, 2)]), tasks);

    assert_eq!(queued.meta.task_total, 2);
    assert_eq!(queued.meta.task_array_dma_address, 0);
    assert_eq!(queued.meta.lane_range(0).unwrap().task_number, 2);
}

#[test]
fn empty_subcore_layout_defaults_to_slot_zero_range() {
    let mut queue = TestBuckets::new();
    let submit = RknpuQueuedSubmit::new(
        fake_submit(2, 0, &[]),
        vec![fake_task(0x100), fake_task(0x200)],
    );

    queue.enqueue(submit);
    let first = queue.reserve_next_dispatch(0).unwrap();

    assert_eq!(first.lane_slot, 0);
    assert_eq!(first.task_index, 0);
}

#[test]
fn lower_priority_value_runs_first() {
    let mut queue = TestBuckets::new();

    let low = RknpuQueuedSubmit::new(fake_submit(1, 10, &[(0, 0, 1)]), vec![fake_task(0x100)]);
    let high = RknpuQueuedSubmit::new(fake_submit(1, -5, &[(0, 0, 1)]), vec![fake_task(0x200)]);

    let low_id = queue.enqueue(low);
    let high_id = queue.enqueue(high);

    assert_eq!(queue.reserve_next_dispatch(0).unwrap().task_id, high_id);
    assert_eq!(queue.reserve_next_dispatch(1).unwrap().task_id, low_id);
}

#[test]
fn same_submit_can_fill_multiple_idle_cores() {
    let mut queue = TestBuckets::new();
    let submit = RknpuQueuedSubmit::new(
        fake_submit(2, 0, &[(0, 0, 1), (1, 1, 1)]),
        vec![fake_task(0x100), fake_task(0x200)],
    );

    let task_id = queue.enqueue(submit);
    let first = queue.reserve_next_dispatch(0).unwrap();
    let second = queue.reserve_next_dispatch(1).unwrap();

    assert_eq!(first.task_id, task_id);
    assert_eq!(second.task_id, task_id);
    assert_ne!(first.lane_slot, second.lane_slot);
}

#[test]
fn core_mask_binds_submit_to_matching_physical_core() {
    let mut queue = TestBuckets::new();
    let submit = RknpuQueuedSubmit::new(
        fake_submit_with_core_mask(1, 0, 0x2, &[(0, 0, 1)]),
        vec![fake_task(0x100)],
    );

    queue.enqueue(submit);

    assert!(queue.reserve_next_dispatch(0).is_none());
    let dispatch = queue.reserve_next_dispatch(1).unwrap();
    assert_eq!(dispatch.task_index, 0);
}

#[test]
fn same_lane_is_not_dispatched_twice_concurrently() {
    let mut queue = TestBuckets::new();
    let submit = RknpuQueuedSubmit::new(
        fake_submit(2, 0, &[(0, 0, 2)]),
        vec![fake_task(0x100), fake_task(0x100)],
    );

    queue.enqueue(submit);
    let first = queue.reserve_next_dispatch(0).unwrap();

    assert_eq!(first.lane_slot, 0);
    assert!(queue.reserve_next_dispatch(1).is_none());
}

#[test]
fn completion_requeues_followup_work_and_terminal_task_can_be_taken() {
    let mut queue = TestBuckets::new();
    let submit = RknpuQueuedSubmit::new(
        fake_submit(2, 0, &[(0, 0, 2)]),
        vec![fake_task(0x100), fake_task(0x100)],
    );

    let task_id = queue.enqueue(submit);
    let first = queue.reserve_next_dispatch(0).unwrap();

    assert!(queue.complete_dispatch(first, false).is_none());

    let second = queue.reserve_next_dispatch(0).unwrap();
    let terminal = queue.complete_dispatch(second, false);

    assert_eq!(terminal, Some(task_id));
    let finished = queue.take_terminal_task(task_id).unwrap();
    assert!(finished.is_terminal_success());
    assert_eq!(finished.build_submit().task_counter, 2);
}

#[test]
fn faulted_submit_waits_for_other_running_lanes_before_becoming_terminal() {
    let mut queue = TestBuckets::new();
    let submit = RknpuQueuedSubmit::new(
        fake_submit(2, 0, &[(0, 0, 1), (1, 1, 1)]),
        vec![fake_task(0x100), fake_task(0x200)],
    );

    let task_id = queue.enqueue(submit);
    let first = queue.reserve_next_dispatch(0).unwrap();
    let second = queue.reserve_next_dispatch(1).unwrap();

    assert!(
        queue
            .fail_dispatch(first, RknpuError::InternalError)
            .is_none()
    );
    assert!(!queue.is_terminal(task_id));

    let terminal = queue.complete_dispatch(second, false);

    assert_eq!(terminal, Some(task_id));
    let finished = queue.take_terminal_task(task_id).unwrap();
    assert!(finished.is_terminal_fault());
    assert_eq!(finished.last_error, Some(RknpuError::InternalError));
}

#[test]
fn completed_submit_preserves_reply_fields() {
    let mut submit = fake_submit(2, -3, &[(0, 0, 2)]);
    submit.flags = 0x55aa;
    submit.timeout = 77;
    submit.task_start = 9;
    submit.iommu_domain_id = 11;
    submit.reserved = 12;
    submit.task_array_dma_address = 0x8800;
    submit.core_mask = 0x7;
    submit.fence_fd = 13;

    let queued = RknpuQueuedSubmit::new(submit, vec![fake_task(0x100), fake_task(0x200)]);
    let task = RknpuQueueTask::new(1, queued);
    let rebuilt = task.build_submit();

    assert_eq!(rebuilt.flags, 0x55aa);
    assert_eq!(rebuilt.timeout, 77);
    assert_eq!(rebuilt.task_start, 9);
    assert_eq!(rebuilt.priority, -3);
    assert_eq!(rebuilt.iommu_domain_id, 11);
    assert_eq!(rebuilt.reserved, 12);
    assert_eq!(rebuilt.task_array_dma_address, 0x8800);
    assert_eq!(rebuilt.core_mask, 0x7);
    assert_eq!(rebuilt.fence_fd, 13);
    assert_eq!(rebuilt.task_array_cpu_address, 0);
}

#[test]
fn partial_lane_layout_keeps_original_completion_target() {
    let queued = RknpuQueuedSubmit::new(
        fake_submit(4, 0, &[(0, 1, 2)]),
        vec![
            fake_task(0x100),
            fake_task(0x100),
            fake_task(0x100),
            fake_task(0x100),
        ],
    );
    let task = RknpuQueueTask::new(1, queued);

    assert_eq!(task.completion_target(), 2);
}
