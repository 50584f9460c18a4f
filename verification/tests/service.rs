use rknpu_drivers::service::scheduler::{worker_step, WorkerStep};
use rknpu_drivers::data::{RknpuConfig, RknpuType};
use rknpu_drivers::err::RknpuError;
use rknpu_drivers::ioctrl::RknpuSubmit;
use rknpu_drivers::job::RknpuTask;
use rknpu_drivers::npu::Rknpu;
use rknpu_drivers::service::error::RknpuServiceError;
use rknpu_drivers::service::ioctl::{
    check_submit_header, handle_action_request, mem_map_offset, submit_outcome, RknpuCmd,
    RknpuUserAction,
};
use rknpu_drivers::service::scheduler::NpuSchedulerState;
use rknpu_drivers::status::CoreCompletion;
use rknpu_drivers::taskqueen::RknpuQueuedSubmit;

fn one_lane_submit(task_number: u32, priority: i32) -> RknpuQueuedSubmit {
    let mut submit = RknpuSubmit::default();
    submit.priority = priority;
    submit.task_number = task_number;
    submit.subcore_task[0].task_start = 0;
    submit.subcore_task[0].task_number = task_number;
    let tasks = (0..task_number)
        .map(|_| RknpuTask {
            int_mask: 0x300,
            ..RknpuTask::default()
        })
        .collect();
    RknpuQueuedSubmit::new(submit, tasks)
}

#[test]
fn ioctl_numbers_decode_with_and_without_bit_six() {
    assert_eq!(RknpuCmd::try_from_nr(0x00), Ok(RknpuCmd::Action));
    assert_eq!(RknpuCmd::try_from_nr(0x41), Ok(RknpuCmd::Submit));
    assert_eq!(RknpuCmd::try_from_nr(0x45), Ok(RknpuCmd::MemSync));
    assert_eq!(RknpuCmd::try_from_nr(0x06), Err(()));
    assert_eq!(RknpuCmd::try_from_nr(0x80), Err(()));
    assert_eq!(RknpuCmd::try_from(0x43), Ok(RknpuCmd::MemMap));
    assert_eq!(RknpuCmd::try_from(0x44u32), Ok(RknpuCmd::MemDestroy));
}

#[test]
fn default_user_action_queries_driver_version() {
    let action = RknpuUserAction::default();
    assert_eq!(action.flags, 1);
    assert_eq!(action.value, 0);
}

#[test]
fn action_request_runs_the_action() {
    let mut npu = Rknpu::new(
        1,
        RknpuConfig {
            rknpu_type: RknpuType::Rk3588,
        },
    );
    let reply = handle_action_request(&mut npu, RknpuUserAction::default()).unwrap();
    assert_eq!(reply.value, 908);
    let bad = handle_action_request(&mut npu, RknpuUserAction { flags: 99, value: 0 });
    assert_eq!(bad, Err(RknpuServiceError::BadIoctl));
    let unsupported = handle_action_request(&mut npu, RknpuUserAction { flags: 2, value: 0 });
    assert_eq!(
        unsupported,
        Err(RknpuServiceError::Driver(RknpuError::NotSupported))
    );
}

#[test]
fn service_errors_map_to_driver_errors() {
    assert_eq!(
        RknpuServiceError::InvalidInput.to_driver_error(),
        RknpuError::InvalidParameter
    );
    assert_eq!(
        RknpuServiceError::NotFound.to_driver_error(),
        RknpuError::InvalidHandle
    );
    assert_eq!(RknpuServiceError::Busy.to_driver_error(), RknpuError::DeviceBusy);
    assert_eq!(
        RknpuServiceError::Internal.to_driver_error(),
        RknpuError::InternalError
    );
    let wrapped: RknpuServiceError = RknpuError::Timeout.into();
    assert_eq!(wrapped, RknpuServiceError::Driver(RknpuError::Timeout));
    assert_eq!(wrapped.to_driver_error(), RknpuError::Timeout);
    assert_eq!(RknpuServiceError::BadIoctl.describe(), "bad ioctl");
}

#[test]
fn errors_display_as_their_text() {
    assert_eq!(RknpuError::Timeout.describe(), "Timeout");
    assert_eq!(RknpuError::InvalidHandle.describe(), "InvalidHandle");
    assert_eq!(
        RknpuServiceError::Driver(RknpuError::DeviceBusy).describe(),
        "driver error: DeviceBusy"
    );
    assert_eq!(RknpuServiceError::Internal.describe(), "internal error");
}

#[test]
fn submit_header_is_checked_before_copy_in() {
    let mut submit = RknpuSubmit::default();
    assert_eq!(check_submit_header(&submit), Err(RknpuServiceError::InvalidData));
    submit.task_number = 3;
    assert_eq!(check_submit_header(&submit), Err(RknpuServiceError::InvalidData));
    submit.task_array_cpu_address = 0x1000;
    assert_eq!(check_submit_header(&submit), Ok(120));
    assert_eq!(submit_outcome(None), Ok(0));
    assert_eq!(
        submit_outcome(Some(RknpuError::TaskError)),
        Err(RknpuServiceError::Driver(RknpuError::TaskError))
    );
    assert_eq!(mem_map_offset(3), 0x3000);
}

#[test]
fn first_enqueue_spawns_the_worker_once() {
    let mut state = NpuSchedulerState::new();
    let (first, spawn_first) = state.enqueue_submit(one_lane_submit(1, 0));
    let (second, spawn_second) = state.enqueue_submit(one_lane_submit(1, 0));
    assert!(spawn_first);
    assert!(!spawn_second);
    assert_ne!(first, second);
    assert!(state.has_live_work());
}

#[test]
fn dispatch_completion_and_terminal_take() {
    let mut state = NpuSchedulerState::new();
    let (id, _) = state.enqueue_submit(one_lane_submit(1, 0));
    let setup = state.select_dispatch().unwrap();
    assert_eq!(setup.binding.task_id, id);
    assert_eq!(setup.binding.task_index, 0);
    assert!(state.has_inflight());
    let recorded = state.record_completion(CoreCompletion {
        core_slot: setup.core_slot as u8,
        observed_irq_status: 0x300,
    });
    assert!(recorded.is_some());
    assert_eq!(state.reclassify_task(id), Some(id));
    let done = state.take_terminal_submit(id).unwrap();
    assert_eq!(done.submit.task_counter, 1);
    assert_eq!(done.tasks[0].int_status, 0x300);
    assert!(done.last_error.is_none());
    assert_eq!(
        state.take_terminal_submit(id).err(),
        Some(RknpuServiceError::InvalidData)
    );
}

fn two_lane_submit(priority: i32) -> RknpuQueuedSubmit {
    let mut submit = RknpuSubmit::default();
    submit.priority = priority;
    submit.task_number = 2;
    submit.subcore_task[0].task_start = 0;
    submit.subcore_task[0].task_number = 1;
    submit.subcore_task[1].task_start = 1;
    submit.subcore_task[1].task_number = 1;
    let tasks = vec![
        RknpuTask { int_mask: 0x100, ..RknpuTask::default() },
        RknpuTask { int_mask: 0x200, ..RknpuTask::default() },
    ];
    RknpuQueuedSubmit::new(submit, tasks)
}

#[test]
fn running_submit_is_prioritized_before_new_ready_submit() {
    let mut state = NpuSchedulerState::new();
    let (running_id, _) = state.enqueue_submit(two_lane_submit(10));
    let first = state.select_dispatch().unwrap();
    let (ready_id, _) = state.enqueue_submit(one_lane_submit(1, -10));
    let second = state.select_dispatch().unwrap();

    assert_eq!(first.binding.task_id, running_id);
    assert_eq!(second.binding.task_id, running_id);
    assert_ne!(running_id, ready_id);
}

#[test]
fn enqueued_submits_get_distinct_ids() {
    let mut state = NpuSchedulerState::new();
    let ids: Vec<_> = (0..4).map(|_| state.enqueue_submit(one_lane_submit(1, 0)).0).collect();
    assert_eq!(ids, vec![1, 2, 3, 4]);
}

#[test]
fn terminal_header_keeps_the_submit_fields() {
    let mut submit = RknpuSubmit::default();
    submit.priority = 3;
    submit.timeout = 500;
    submit.core_mask = 0x2;
    submit.task_number = 1;
    submit.subcore_task[0].task_number = 1;
    let queued = RknpuQueuedSubmit::new(submit, vec![RknpuTask { int_mask: 0x300, ..RknpuTask::default() }]);
    let mut state = NpuSchedulerState::new();
    let (id, _) = state.enqueue_submit(queued);
    let setup = state.select_dispatch().unwrap();
    state.record_completion(CoreCompletion { core_slot: setup.core_slot as u8, observed_irq_status: 0x300 });
    state.reclassify_task(id);
    let done = state.take_terminal_submit(id).unwrap();
    assert_eq!(done.submit.timeout, 500);
    assert_eq!(done.submit.priority, 3);
    assert_eq!(done.submit.core_mask, 0x2);
    assert_eq!(done.submit.hw_elapse_time, 1);
    assert!(matches!(state.take_terminal_submit(id), Err(RknpuServiceError::InvalidData)));
}

#[test]
fn worker_steps_follow_progress_and_live_work() {
    assert_eq!(worker_step(true, false, true, true), WorkerStep::Again);
    assert_eq!(worker_step(false, true, false, false), WorkerStep::Again);
    assert_eq!(worker_step(false, false, true, true), WorkerStep::YieldThenAgain);
    assert_eq!(worker_step(false, false, false, true), WorkerStep::YieldThenAgain);
    assert_eq!(worker_step(false, false, false, false), WorkerStep::Sleep);
}

#[test]
fn aborted_submit_leaves_nothing_to_take() {
    let mut state = NpuSchedulerState::new();
    let (id, _) = state.enqueue_submit(two_lane_submit(0));
    state.abort_submit(id);
    assert!(matches!(state.take_terminal_submit(id), Err(RknpuServiceError::InvalidData)));
    assert!(!state.has_live_work());
}
