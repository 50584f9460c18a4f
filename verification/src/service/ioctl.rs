//! Decoding of the driver ioctls and the logic between copy-in and copy-out.
use vstd::prelude::*;
use crate::err::RknpuError;
use crate::ioctrl::{RknpuSubmit, RknpuMemMap, RknpuMemDestroy};
use crate::gem::lookup;
use crate::npu::{action_outcome, reads_traffic_counters, Rknpu, RknpuAction, spec_action_from_code};
use crate::service::error::RknpuServiceError;

verus! {

/// Driver ioctl command numbers.
#[derive(Debug, Clone, Copy, PartialEq, Eq, Structural)]
pub enum RknpuCmd {
    /// Generic action or query.
    Action,
    /// Blocking submit.
    Submit,
    /// DMA buffer allocation.
    MemCreate,
    /// DMA buffer mmap offset lookup.
    MemMap,
    /// DMA buffer destruction.
    MemDestroy,
    /// DMA buffer cache sync.
    MemSync,
}

/// The command an ioctl number names: the low six numbers, with or without
/// bit 6 set.
pub open spec fn spec_cmd_from_nr(nr: u32) -> Option<RknpuCmd> {
    if nr == 0x00 || nr == 0x40 {
        Some(RknpuCmd::Action)
    } else if nr == 0x01 || nr == 0x41 {
        Some(RknpuCmd::Submit)
    } else if nr == 0x02 || nr == 0x42 {
        Some(RknpuCmd::MemCreate)
    } else if nr == 0x03 || nr == 0x43 {
        Some(RknpuCmd::MemMap)
    } else if nr == 0x04 || nr == 0x44 {
        Some(RknpuCmd::MemDestroy)
    } else if nr == 0x05 || nr == 0x45 {
        Some(RknpuCmd::MemSync)
    } else {
        None
    }
}

/// The command numbers: 0 action, 1 submit, 2 buffer create, 3 buffer map,
/// 4 buffer destroy, 5 buffer sync; the historical numbers with bit 6 set
/// (0x40 to 0x45) name the same commands; every other number is refused.
pub proof fn law_cmd_numbers(nr: u32)
    ensures
        spec_cmd_from_nr(0) == Some(RknpuCmd::Action),
        spec_cmd_from_nr(1) == Some(RknpuCmd::Submit),
        spec_cmd_from_nr(2) == Some(RknpuCmd::MemCreate),
        spec_cmd_from_nr(3) == Some(RknpuCmd::MemMap),
        spec_cmd_from_nr(4) == Some(RknpuCmd::MemDestroy),
        spec_cmd_from_nr(5) == Some(RknpuCmd::MemSync),
        nr < 6 ==> spec_cmd_from_nr((nr + 0x40) as u32) == spec_cmd_from_nr(nr),
        spec_cmd_from_nr(nr) is Some <==> (nr < 6 || (0x40 <= nr && nr < 0x46)),
{
}

impl RknpuCmd {
    /// Decode an ioctl number.
    pub fn try_from_nr(nr: u32) -> (r: Result<RknpuCmd, ()>)
        ensures
            match spec_cmd_from_nr(nr) {
                Some(c) => r == Ok::<RknpuCmd, ()>(c),
                None => r == Err::<RknpuCmd, ()>(()),
            },
    {
        match nr {
            0x00 | 0x40 => Ok(RknpuCmd::Action),
            0x01 | 0x41 => Ok(RknpuCmd::Submit),
            0x02 | 0x42 => Ok(RknpuCmd::MemCreate),
            0x03 | 0x43 => Ok(RknpuCmd::MemMap),
            0x04 | 0x44 => Ok(RknpuCmd::MemDestroy),
            0x05 | 0x45 => Ok(RknpuCmd::MemSync),
            _ => Err(()),
        }
    }
}

impl core::convert::TryFrom<u32> for RknpuCmd {
    type Error = ();

    /// Decode an ioctl number.
    fn try_from(nr: u32) -> (r: Result<RknpuCmd, ()>)
        ensures
            match spec_cmd_from_nr(nr) {
                Some(c) => r == Ok::<RknpuCmd, ()>(c),
                None => r == Err::<RknpuCmd, ()>(()),
            },
    {
        RknpuCmd::try_from_nr(nr)
    }
}

impl vstd::std_specs::convert::TryFromSpecImpl<u32> for RknpuCmd {
    open spec fn obeys_try_from_spec() -> bool {
        true
    }

    open spec fn try_from_spec(nr: u32) -> Result<RknpuCmd, ()> {
        match spec_cmd_from_nr(nr) {
            Some(c) => Ok(c),
            None => Err(()),
        }
    }
}

/// Userspace action payload.
#[derive(Debug, Clone, Copy, PartialEq, Eq, Structural)]
pub struct RknpuUserAction {
    /// Raw action code.
    pub flags: u32,
    /// Input and output value of the action.
    pub value: u32,
}

impl Default for RknpuUserAction {
    /// A driver-version query with an empty value.
    fn default() -> (a: RknpuUserAction)
        ensures
            a == (RknpuUserAction { flags: 1, value: 0 }),
    {
        RknpuUserAction { flags: 1, value: 0 }
    }
}

/// Run an action request: an unknown code is `BadIoctl`; a known one runs
/// the action on the device, a failing action is its driver error, and on
/// success the reply carries the request's code and the action's value.
pub fn handle_action_request(npu: &mut Rknpu, request: RknpuUserAction) -> (r: Result<
    RknpuUserAction,
    RknpuServiceError,
>)
    requires
        old(npu).wf(),
        spec_action_from_code(request.flags) == Some(RknpuAction::GetHwVersion) ==> old(npu).base@.len() > 0,
        (spec_action_from_code(request.flags) matches Some(a) && reads_traffic_counters(a))
            && old(npu).data.amount_top is Some ==> old(npu).base@.len() > 0,
        spec_action_from_code(request.flags) == Some(RknpuAction::ActClrTotalRwAmount) && old(
            npu,
        ).data.amount_top is Some && old(npu).data.pc_dma_ctrl > 0 ==> crate::registers::window_word(
            old(npu).base@[0].mmio@,
            0x10,
        ) <= 0xfffc,
    ensures
        match spec_action_from_code(request.flags) {
            None => r == Err::<RknpuUserAction, RknpuServiceError>(RknpuServiceError::BadIoctl) && *final(npu)
                == *old(npu),
            Some(a) => match r {
                Ok(reply) => reply.flags == request.flags && action_outcome(
                    *old(npu),
                    a,
                    request.value,
                    Ok(reply.value),
                    *final(npu),
                ),
                Err(RknpuServiceError::Driver(e)) => action_outcome(*old(npu), a, request.value, Err(e), *final(npu)),
                Err(_) => false,
            },
        },
{
    let action = match RknpuAction::try_from_code(request.flags) {
        Ok(a) => a,
        Err(()) => { return Err(RknpuServiceError::BadIoctl); },
    };
    match npu.action(action, request.value) {
        Ok(val) => Ok(RknpuUserAction { flags: request.flags, value: val }),
        Err(err) => Err(RknpuServiceError::Driver(err)),
    }
}

/// Size in bytes of `task_number` task descriptors, when it fits.
pub open spec fn spec_task_bytes(task_number: u32) -> int {
    task_number * 40
}

/// The task array takes one 40-byte descriptor per task.
pub proof fn law_task_bytes(n: u32)
    ensures
        spec_task_bytes(0) == 0,
        spec_task_bytes(n) == n * 40,
        n < u32::MAX ==> spec_task_bytes((n + 1) as u32) == spec_task_bytes(n) + 40,
{
}

/// Check a submit header before its tasks are copied in: no tasks or no task
/// array is `InvalidData`; otherwise the byte size of the task array.
pub fn check_submit_header(submit: &RknpuSubmit) -> (r: Result<usize, RknpuServiceError>)
    ensures
        submit.task_number == 0 || submit.task_array_cpu_address == 0 ==> r == Err::<usize, RknpuServiceError>(
            RknpuServiceError::InvalidData,
        ),
        submit.task_number != 0 && submit.task_array_cpu_address != 0 && spec_task_bytes(submit.task_number)
            <= usize::MAX ==> r == Ok::<usize, RknpuServiceError>(spec_task_bytes(submit.task_number) as usize),
        submit.task_number != 0 && submit.task_array_cpu_address != 0 && spec_task_bytes(submit.task_number)
            > usize::MAX ==> r == Err::<usize, RknpuServiceError>(RknpuServiceError::InvalidData),
{
    if submit.task_number == 0 || submit.task_array_cpu_address == 0 {
        return Err(RknpuServiceError::InvalidData);
    }
    match (submit.task_number as usize).checked_mul(40) {
        Some(bytes) => Ok(bytes),
        None => Err(RknpuServiceError::InvalidData),
    }
}

/// The ioctl result of a finished submit: its terminal error, if any.
pub fn submit_outcome(last_error: Option<RknpuError>) -> (r: Result<usize, RknpuServiceError>)
    ensures
        match last_error {
            Some(err) => r == Err::<usize, RknpuServiceError>(RknpuServiceError::Driver(err)),
            None => r == Ok::<usize, RknpuServiceError>(0),
        },
{
    match last_error {
        Some(err) => Err(RknpuServiceError::Driver(err)),
        None => Ok(0),
    }
}

/// Answer a buffer-map request: the mmap offset of a known handle,
/// `InvalidHandle` for an unknown one.
pub fn handle_mem_map_request(npu: &Rknpu, request: RknpuMemMap) -> (r: Result<RknpuMemMap, RknpuServiceError>)
    requires
        npu.gem.wf(),
    ensures
        lookup(npu.gem.pool@, request.handle) is Some ==> r == Ok::<RknpuMemMap, RknpuServiceError>(
            RknpuMemMap { offset: (request.handle as u64 * 4096) as u64, ..request },
        ),
        lookup(npu.gem.pool@, request.handle) is None ==> r == Err::<RknpuMemMap, RknpuServiceError>(
            RknpuServiceError::Driver(RknpuError::InvalidHandle),
        ),
{
    match npu.gem.get_phys_addr_and_size(request.handle) {
        Some(_) => Ok(RknpuMemMap { offset: mem_map_offset(request.handle), ..request }),
        None => Err(RknpuServiceError::Driver(RknpuError::InvalidHandle)),
    }
}

/// Answer a buffer-destroy request; an unknown handle is ignored.
pub fn handle_mem_destroy_request(npu: &mut Rknpu, request: RknpuMemDestroy) -> (r: Result<usize, RknpuServiceError>)
    requires
        old(npu).gem.wf(),
    ensures
        r == Ok::<usize, RknpuServiceError>(0),
        *final(npu) == (Rknpu { gem: final(npu).gem, ..*old(npu) }),
        final(npu).gem.handle_counter == old(npu).gem.handle_counter,
        final(npu).gem.wf(),
        lookup(final(npu).gem.pool@, request.handle) is None,
        forall|h: u32| h != request.handle ==> #[trigger] lookup(final(npu).gem.pool@, h) == lookup(
            old(npu).gem.pool@,
            h,
        ),
{
    if npu.gem.get_phys_addr_and_size(request.handle).is_some() {
        npu.gem.destroy(request.handle);
    }
    Ok(0)
}

/// The mmap offset userspace uses for a buffer handle: the handle shifted
/// by the page size.
pub fn mem_map_offset(handle: u32) -> (offset: u64)
    ensures
        offset == handle as u64 * 4096,
{
    (handle as u64) * 4096
}

} // verus!
