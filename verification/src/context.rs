//! A saved NPU context and its human-readable rendering.
use vstd::prelude::*;
use vstd::string::StringExecFns;
use crate::ioctrl::RknpuSubmit;
use crate::status::{
    NPUDriverStatus, NpuBatchProgress, NpuCoreDriverStatus, NpuCoreRegisterSnapshot, NpuCtxState,
    NpuPcRegisterSnapshot,
};

verus! {

/// A task closure that can be saved and resumed away from the running
/// stream: the submit as userspace passed it and the driver's dynamic state.
#[derive(Debug, Clone, Copy)]
pub struct NpuContext {
    /// The submit parameters, kept whole.
    pub submit: RknpuSubmit,
    /// The driver state bound to the task stream.
    pub driver_status: NPUDriverStatus,
}

impl Default for NpuContext {
    fn default() -> (c: NpuContext)
        ensures
            c.driver_status.ctx_state == NpuCtxState::Empty,
            !c.driver_status.savepoint_valid && !c.driver_status.can_resume,
            c.driver_status.active_core_count == 0,
            c.submit.task_number == 0 && c.submit.flags == 0,
            forall|i: int| 0 <= i < 3 ==> #[trigger] c.driver_status.cores[i] == crate::status::idle_core_status(),
    {
        NpuContext { submit: RknpuSubmit::default(), driver_status: NPUDriverStatus::default() }
    }
}

/// The full process-level NPU state: the driver status, and a context that
/// carries the same driver status.
#[derive(Debug, Clone, Copy)]
pub struct ProcessNpuState {
    pub driver_status: NPUDriverStatus,
    pub npu_context: NpuContext,
}

/// Digit character of `d` (`0`..`9`, then `a`..`f`).
pub open spec fn digit_char(d: int) -> char {
    if d < 10 {
        (48 + d) as char
    } else {
        (87 + d) as char
    }
}

/// Decimal digits of `n`, most significant first.
pub open spec fn decimal_digits(n: nat) -> Seq<char>
    decreases n,
{
    if n < 10 {
        seq![digit_char(n as int)]
    } else {
        decimal_digits(n / 10).push(digit_char((n % 10) as int))
    }
}

/// Lowercase hexadecimal digits of `n`, most significant first.
pub open spec fn hex_digits(n: nat) -> Seq<char>
    decreases n,
{
    if n < 16 {
        seq![digit_char(n as int)]
    } else {
        hex_digits(n / 16).push(digit_char((n % 16) as int))
    }
}

/// `v` written in decimal, with a minus sign when negative.
pub open spec fn spec_decimal(v: int) -> Seq<char> {
    if v < 0 {
        seq!['-'] + decimal_digits((-v) as nat)
    } else {
        decimal_digits(v as nat)
    }
}

/// `v >= 0` written in hexadecimal after `0x`.
pub open spec fn spec_hex(v: int) -> Seq<char> {
    seq!['0', 'x'] + hex_digits(v as nat)
}

/// The digit character of `d`, as a string.
fn digit_str(d: u64) -> (s: &'static str)
    requires
        d < 16,
    ensures
        s@ == seq![digit_char(d as int)],
{
    match d {
        0 => {
            proof {
                reveal_strlit("0");
            }
            "0"
        },
        1 => {
            proof {
                reveal_strlit("1");
            }
            "1"
        },
        2 => {
            proof {
                reveal_strlit("2");
            }
            "2"
        },
        3 => {
            proof {
                reveal_strlit("3");
            }
            "3"
        },
        4 => {
            proof {
                reveal_strlit("4");
            }
            "4"
        },
        5 => {
            proof {
                reveal_strlit("5");
            }
            "5"
        },
        6 => {
            proof {
                reveal_strlit("6");
            }
            "6"
        },
        7 => {
            proof {
                reveal_strlit("7");
            }
            "7"
        },
        8 => {
            proof {
                reveal_strlit("8");
            }
            "8"
        },
        9 => {
            proof {
                reveal_strlit("9");
            }
            "9"
        },
        10 => {
            proof {
                reveal_strlit("a");
            }
            "a"
        },
        11 => {
            proof {
                reveal_strlit("b");
            }
            "b"
        },
        12 => {
            proof {
                reveal_strlit("c");
            }
            "c"
        },
        13 => {
            proof {
                reveal_strlit("d");
            }
            "d"
        },
        14 => {
            proof {
                reveal_strlit("e");
            }
            "e"
        },
        _ => {
            proof {
                reveal_strlit("f");
            }
            "f"
        },
    }
}

/// Append the decimal digits of `n` to `out`.
fn push_decimal(out: &mut String, n: u64)
    ensures
        final(out)@ == old(out)@ + decimal_digits(n as nat),
    decreases n,
{
    if n >= 10 {
        push_decimal(out, n / 10);
    }
    out.append(digit_str(n % 10));
    assert(decimal_digits(n as nat) =~= if n < 10 {
        seq![digit_char(n as int)]
    } else {
        decimal_digits((n / 10) as nat).push(digit_char((n % 10) as int))
    });
}

/// Append the lowercase hexadecimal digits of `n` to `out`.
fn push_hex(out: &mut String, n: u64)
    ensures
        final(out)@ == old(out)@ + hex_digits(n as nat),
    decreases n,
{
    if n >= 16 {
        push_hex(out, n / 16);
    }
    out.append(digit_str(n % 16));
    assert(hex_digits(n as nat) =~= if n < 16 {
        seq![digit_char(n as int)]
    } else {
        hex_digits((n / 16) as nat).push(digit_char((n % 16) as int))
    });
}

/// An unsigned number in decimal.
fn decimal(v: u64) -> (s: String)
    ensures
        s@ == spec_decimal(v as int),
{
    let mut s = String::new();
    push_decimal(&mut s, v);
    s
}

/// A signed number in decimal, after a minus sign when negative.
fn signed_decimal(v: i64) -> (s: String)
    ensures
        s@ == spec_decimal(v as int),
{
    let mut s = String::new();
    if v < 0 {
        proof {
            reveal_strlit("-");
        }
        s.append("-");
        let m: i128 = -(v as i128);
        push_decimal(&mut s, m as u64);
    } else {
        push_decimal(&mut s, v as u64);
    }
    s
}

/// `0x` and the lowercase hexadecimal digits of `v`.
fn hex(v: u64) -> (s: String)
    ensures
        s@ == spec_hex(v as int),
{
    proof {
        reveal_strlit("0x");
    }
    let mut s = String::from_str("0x");
    push_hex(&mut s, v);
    s
}

/// `true` or `false`.
pub open spec fn spec_bool_text(b: bool) -> Seq<char> {
    if b {
        "true"@
    } else {
        "false"@
    }
}

/// `true` or `false`.
fn bool_text(b: bool) -> (s: &'static str)
    ensures
        s@ == spec_bool_text(b),
{
    if b {
        "true"
    } else {
        "false"
    }
}

/// Name of a context phase.
pub open spec fn spec_ctx_state_name(s: NpuCtxState) -> Seq<char> {
    match s {
        NpuCtxState::Empty => "Empty"@,
        NpuCtxState::Prepared => "Prepared"@,
        NpuCtxState::Running => "Running"@,
        NpuCtxState::WaitingIrqBoundary => "WaitingIrqBoundary"@,
        NpuCtxState::BoundaryReady => "BoundaryReady"@,
        NpuCtxState::Saved => "Saved"@,
        NpuCtxState::Resuming => "Resuming"@,
        NpuCtxState::Completed => "Completed"@,
        NpuCtxState::Faulted => "Faulted"@,
        NpuCtxState::ResetLost => "ResetLost"@,
    }
}

/// Name of a context phase.
fn ctx_state_name(s: NpuCtxState) -> (n: &'static str)
    ensures
        n@ == spec_ctx_state_name(s),
{
    match s {
        NpuCtxState::Empty => "Empty",
        NpuCtxState::Prepared => "Prepared",
        NpuCtxState::Running => "Running",
        NpuCtxState::WaitingIrqBoundary => "WaitingIrqBoundary",
        NpuCtxState::BoundaryReady => "BoundaryReady",
        NpuCtxState::Saved => "Saved",
        NpuCtxState::Resuming => "Resuming",
        NpuCtxState::Completed => "Completed",
        NpuCtxState::Faulted => "Faulted",
        NpuCtxState::ResetLost => "ResetLost",
    }
}

/// The owner, context and mask lines.
#[verifier::opaque]
pub open spec fn spec_header_text(prefix: Seq<char>, ds: NPUDriverStatus) -> Seq<char> {
    prefix
        + "Process NPU State\n"@
        + "  owner: task="@
        + spec_decimal(ds.owner_task_id as int)
        + " process="@
        + spec_decimal(ds.owner_process_id as int)
        + " addr_space="@
        + spec_decimal(ds.owner_address_space_id as int)
        + "\n"@
        + "  ctx: state="@
        + spec_ctx_state_name(ds.ctx_state)
        + " can_resume="@
        + spec_bool_text(ds.can_resume)
        + " savepoint_valid="@
        + spec_bool_text(ds.savepoint_valid)
        + "\n"@
        + "  masks: core_mask="@
        + spec_hex(ds.core_mask as int)
        + " active="@
        + spec_decimal(ds.active_core_count as int)
        + " running="@
        + spec_hex(ds.running_core_mask as int)
        + " waiting="@
        + spec_hex(ds.waiting_core_mask as int)
        + " irq_done="@
        + spec_hex(ds.irq_done_core_mask as int)
        + "\n"@
}

/// The owner, context and mask lines.
fn header_text(out: &mut String, ds: &NPUDriverStatus)
    ensures
        final(out)@ == spec_header_text(old(out)@, *ds),
{
    proof {
        reveal(spec_header_text);
    }
    out.append("Process NPU State\n");
    out.append("  owner: task=");
    out.append(decimal(ds.owner_task_id as u64).as_str());
    out.append(" process=");
    out.append(decimal(ds.owner_process_id as u64).as_str());
    out.append(" addr_space=");
    out.append(decimal(ds.owner_address_space_id as u64).as_str());
    out.append("\n");
    out.append("  ctx: state=");
    out.append(ctx_state_name(ds.ctx_state));
    out.append(" can_resume=");
    out.append(bool_text(ds.can_resume));
    out.append(" savepoint_valid=");
    out.append(bool_text(ds.savepoint_valid));
    out.append("\n");
    out.append("  masks: core_mask=");
    out.append(hex(ds.core_mask as u64).as_str());
    out.append(" active=");
    out.append(decimal(ds.active_core_count as u64).as_str());
    out.append(" running=");
    out.append(hex(ds.running_core_mask as u64).as_str());
    out.append(" waiting=");
    out.append(hex(ds.waiting_core_mask as u64).as_str());
    out.append(" irq_done=");
    out.append(hex(ds.irq_done_core_mask as u64).as_str());
    out.append("\n");
}

/// The batch section.
#[verifier::opaque]
pub open spec fn spec_batch_text(prefix: Seq<char>, b: NpuBatchProgress) -> Seq<char> {
    prefix
        + "batch\n"@
        + "  task_iter="@
        + spec_decimal(b.task_iter as int)
        + " task_iter_end="@
        + spec_decimal(b.task_iter_end as int)
        + " current_batch_start="@
        + spec_decimal(b.current_batch_start as int)
        + " current_batch_count="@
        + spec_decimal(b.current_batch_count as int)
        + " completed="@
        + spec_decimal(b.completed_task_count as int)
        + " remaining="@
        + spec_decimal(b.remaining_task_count as int)
        + "\n"@
}

/// The batch section.
fn batch_text(out: &mut String, b: &NpuBatchProgress)
    ensures
        final(out)@ == spec_batch_text(old(out)@, *b),
{
    proof {
        reveal(spec_batch_text);
    }
    out.append("batch\n");
    out.append("  task_iter=");
    out.append(decimal(b.task_iter as u64).as_str());
    out.append(" task_iter_end=");
    out.append(decimal(b.task_iter_end as u64).as_str());
    out.append(" current_batch_start=");
    out.append(decimal(b.current_batch_start as u64).as_str());
    out.append(" current_batch_count=");
    out.append(decimal(b.current_batch_count as u64).as_str());
    out.append(" completed=");
    out.append(decimal(b.completed_task_count as u64).as_str());
    out.append(" remaining=");
    out.append(decimal(b.remaining_task_count as u64).as_str());
    out.append("\n");
}

/// The submit section.
#[verifier::opaque]
pub open spec fn spec_submit_text(prefix: Seq<char>, s: RknpuSubmit) -> Seq<char> {
    prefix
        + "submit\n"@
        + "  flags="@
        + spec_hex(s.flags as int)
        + " timeout="@
        + spec_decimal(s.timeout as int)
        + " task_number="@
        + spec_decimal(s.task_number as int)
        + " task_counter="@
        + spec_decimal(s.task_counter as int)
        + " hw_elapse_time="@
        + spec_decimal(s.hw_elapse_time as int)
        + " task_base_addr="@
        + spec_hex(s.task_array_dma_address as int)
        + " task_obj_addr="@
        + spec_hex(s.task_array_cpu_address as int)
        + " iommu_domain_id="@
        + spec_decimal(s.iommu_domain_id as int)
        + "\n"@
}

/// The submit section.
fn submit_text(out: &mut String, s: &RknpuSubmit)
    ensures
        final(out)@ == spec_submit_text(old(out)@, *s),
{
    proof {
        reveal(spec_submit_text);
    }
    out.append("submit\n");
    out.append("  flags=");
    out.append(hex(s.flags as u64).as_str());
    out.append(" timeout=");
    out.append(decimal(s.timeout as u64).as_str());
    out.append(" task_number=");
    out.append(decimal(s.task_number as u64).as_str());
    out.append(" task_counter=");
    out.append(decimal(s.task_counter as u64).as_str());
    out.append(" hw_elapse_time=");
    out.append(signed_decimal(s.hw_elapse_time).as_str());
    out.append(" task_base_addr=");
    out.append(hex(s.task_array_dma_address as u64).as_str());
    out.append(" task_obj_addr=");
    out.append(hex(s.task_array_cpu_address as u64).as_str());
    out.append(" iommu_domain_id=");
    out.append(decimal(s.iommu_domain_id as u64).as_str());
    out.append("\n");
}

/// The heading, flag and task lines of one core.
#[verifier::opaque]
pub open spec fn spec_core_state_text(prefix: Seq<char>, idx: usize, c: NpuCoreDriverStatus) -> Seq<char> {
    prefix
        + "core"@
        + spec_decimal(idx as int)
        + "\n"@
        + "  flags: enabled="@
        + spec_bool_text(c.enabled)
        + " inflight="@
        + spec_bool_text(c.inflight)
        + " waiting_irq="@
        + spec_bool_text(c.waiting_irq)
        + " irq_seen="@
        + spec_bool_text(c.irq_seen)
        + " irq_cleared="@
        + spec_bool_text(c.irq_cleared)
        + " boundary_ready="@
        + spec_bool_text(c.boundary_ready)
        + " faulted="@
        + spec_bool_text(c.faulted)
        + "\n"@
        + "  task: subcore_slot="@
        + spec_decimal(c.subcore_slot as int)
        + " current_task_index="@
        + spec_decimal(c.current_task_index as int)
        + " batch_task_start="@
        + spec_decimal(c.batch_task_start as int)
        + " batch_task_count="@
        + spec_decimal(c.batch_task_count as int)
        + " completed="@
        + spec_decimal(c.completed_task_count as int)
        + " remaining="@
        + spec_decimal(c.remaining_task_count as int)
        + " expected_int_mask="@
        + spec_hex(c.expected_int_mask as int)
        + " observed_irq_status="@
        + spec_hex(c.observed_irq_status as int)
        + " last_task_int_status="@
        + spec_hex(c.last_task_int_status as int)
        + "\n"@
}

/// The heading, flag and task lines of one core.
fn core_state_text(out: &mut String, idx: usize, c: &NpuCoreDriverStatus)
    ensures
        final(out)@ == spec_core_state_text(old(out)@, idx, *c),
{
    proof {
        reveal(spec_core_state_text);
    }
    out.append("core");
    out.append(decimal(idx as u64).as_str());
    out.append("\n");
    out.append("  flags: enabled=");
    out.append(bool_text(c.enabled));
    out.append(" inflight=");
    out.append(bool_text(c.inflight));
    out.append(" waiting_irq=");
    out.append(bool_text(c.waiting_irq));
    out.append(" irq_seen=");
    out.append(bool_text(c.irq_seen));
    out.append(" irq_cleared=");
    out.append(bool_text(c.irq_cleared));
    out.append(" boundary_ready=");
    out.append(bool_text(c.boundary_ready));
    out.append(" faulted=");
    out.append(bool_text(c.faulted));
    out.append("\n");
    out.append("  task: subcore_slot=");
    out.append(decimal(c.subcore_slot as u64).as_str());
    out.append(" current_task_index=");
    out.append(decimal(c.current_task_index as u64).as_str());
    out.append(" batch_task_start=");
    out.append(decimal(c.batch_task_start as u64).as_str());
    out.append(" batch_task_count=");
    out.append(decimal(c.batch_task_count as u64).as_str());
    out.append(" completed=");
    out.append(decimal(c.completed_task_count as u64).as_str());
    out.append(" remaining=");
    out.append(decimal(c.remaining_task_count as u64).as_str());
    out.append(" expected_int_mask=");
    out.append(hex(c.expected_int_mask as u64).as_str());
    out.append(" observed_irq_status=");
    out.append(hex(c.observed_irq_status as u64).as_str());
    out.append(" last_task_int_status=");
    out.append(hex(c.last_task_int_status as u64).as_str());
    out.append("\n");
}

/// The PC register line of one core.
#[verifier::opaque]
pub open spec fn spec_pc_regs_text(prefix: Seq<char>, p: NpuPcRegisterSnapshot) -> Seq<char> {
    prefix
        + "  pc: op_en="@
        + spec_hex(p.operation_enable as int)
        + " base="@
        + spec_hex(p.base_address as int)
        + " amount="@
        + spec_hex(p.register_amounts as int)
        + " int_mask="@
        + spec_hex(p.interrupt_mask as int)
        + " int_status="@
        + spec_hex(p.interrupt_status as int)
        + " int_raw="@
        + spec_hex(p.interrupt_raw_status as int)
        + " task_con="@
        + spec_hex(p.task_con as int)
        + " task_dma_base="@
        + spec_hex(p.task_dma_base_addr as int)
        + " task_status="@
        + spec_hex(p.task_status as int)
        + "\n"@
}

/// The PC register line of one core.
fn pc_regs_text(out: &mut String, p: &NpuPcRegisterSnapshot)
    ensures
        final(out)@ == spec_pc_regs_text(old(out)@, *p),
{
    proof {
        reveal(spec_pc_regs_text);
    }
    out.append("  pc: op_en=");
    out.append(hex(p.operation_enable as u64).as_str());
    out.append(" base=");
    out.append(hex(p.base_address as u64).as_str());
    out.append(" amount=");
    out.append(hex(p.register_amounts as u64).as_str());
    out.append(" int_mask=");
    out.append(hex(p.interrupt_mask as u64).as_str());
    out.append(" int_status=");
    out.append(hex(p.interrupt_status as u64).as_str());
    out.append(" int_raw=");
    out.append(hex(p.interrupt_raw_status as u64).as_str());
    out.append(" task_con=");
    out.append(hex(p.task_con as u64).as_str());
    out.append(" task_dma_base=");
    out.append(hex(p.task_dma_base_addr as u64).as_str());
    out.append(" task_status=");
    out.append(hex(p.task_status as u64).as_str());
    out.append("\n");
}

/// The block register lines of one core.
#[verifier::opaque]
pub open spec fn spec_block_regs_text(prefix: Seq<char>, r: NpuCoreRegisterSnapshot) -> Seq<char> {
    prefix
        + "  cna: s_status="@
        + spec_hex(r.cna.s_status as int)
        + " s_pointer="@
        + spec_hex(r.cna.s_pointer as int)
        + " op_en="@
        + spec_hex(r.cna.operation_enable as int)
        + "\n"@
        + "  mac: s_status="@
        + spec_hex(r.mac.s_status as int)
        + " s_pointer="@
        + spec_hex(r.mac.s_pointer as int)
        + " op_en="@
        + spec_hex(r.mac.operation_enable as int)
        + "\n"@
        + "  dpu: s_status="@
        + spec_hex(r.dpu.s_status as int)
        + " s_pointer="@
        + spec_hex(r.dpu.s_pointer as int)
        + " op_en="@
        + spec_hex(r.dpu.operation_enable as int)
        + "\n"@
        + "  dpu_rdma: s_status="@
        + spec_hex(r.dpu_rdma.s_status as int)
        + " s_pointer="@
        + spec_hex(r.dpu_rdma.s_pointer as int)
        + " op_en="@
        + spec_hex(r.dpu_rdma.operation_enable as int)
        + "\n"@
        + "  ppu: s_status="@
        + spec_hex(r.ppu.s_status as int)
        + " s_pointer="@
        + spec_hex(r.ppu.s_pointer as int)
        + " op_en="@
        + spec_hex(r.ppu.operation_enable as int)
        + "\n"@
        + "  ppu_rdma: s_status="@
        + spec_hex(r.ppu_rdma.s_status as int)
        + " s_pointer="@
        + spec_hex(r.ppu_rdma.s_pointer as int)
        + " op_en="@
        + spec_hex(r.ppu_rdma.operation_enable as int)
        + "\n"@
        + "  global: op_en="@
        + spec_hex(r.global.operation_enable as int)
        + "\n"@
}

/// The block register lines of one core.
fn block_regs_text(out: &mut String, r: &NpuCoreRegisterSnapshot)
    ensures
        final(out)@ == spec_block_regs_text(old(out)@, *r),
{
    proof {
        reveal(spec_block_regs_text);
    }
    out.append("  cna: s_status=");
    out.append(hex(r.cna.s_status as u64).as_str());
    out.append(" s_pointer=");
    out.append(hex(r.cna.s_pointer as u64).as_str());
    out.append(" op_en=");
    out.append(hex(r.cna.operation_enable as u64).as_str());
    out.append("\n");
    out.append("  mac: s_status=");
    out.append(hex(r.mac.s_status as u64).as_str());
    out.append(" s_pointer=");
    out.append(hex(r.mac.s_pointer as u64).as_str());
    out.append(" op_en=");
    out.append(hex(r.mac.operation_enable as u64).as_str());
    out.append("\n");
    out.append("  dpu: s_status=");
    out.append(hex(r.dpu.s_status as u64).as_str());
    out.append(" s_pointer=");
    out.append(hex(r.dpu.s_pointer as u64).as_str());
    out.append(" op_en=");
    out.append(hex(r.dpu.operation_enable as u64).as_str());
    out.append("\n");
    out.append("  dpu_rdma: s_status=");
    out.append(hex(r.dpu_rdma.s_status as u64).as_str());
    out.append(" s_pointer=");
    out.append(hex(r.dpu_rdma.s_pointer as u64).as_str());
    out.append(" op_en=");
    out.append(hex(r.dpu_rdma.operation_enable as u64).as_str());
    out.append("\n");
    out.append("  ppu: s_status=");
    out.append(hex(r.ppu.s_status as u64).as_str());
    out.append(" s_pointer=");
    out.append(hex(r.ppu.s_pointer as u64).as_str());
    out.append(" op_en=");
    out.append(hex(r.ppu.operation_enable as u64).as_str());
    out.append("\n");
    out.append("  ppu_rdma: s_status=");
    out.append(hex(r.ppu_rdma.s_status as u64).as_str());
    out.append(" s_pointer=");
    out.append(hex(r.ppu_rdma.s_pointer as u64).as_str());
    out.append(" op_en=");
    out.append(hex(r.ppu_rdma.operation_enable as u64).as_str());
    out.append("\n");
    out.append("  global: op_en=");
    out.append(hex(r.global.operation_enable as u64).as_str());
    out.append("\n");
}

/// The four sections of one core.
pub open spec fn spec_core_text(prefix: Seq<char>, idx: usize, c: NpuCoreDriverStatus) -> Seq<char> {
    spec_block_regs_text(spec_pc_regs_text(spec_core_state_text(prefix, idx, c), c.regs.pc), c.regs)
}

/// The rendering of a process state: the summary, batch and submit
/// sections, then each of the three cores.
pub open spec fn spec_pretty(st: ProcessNpuState) -> Seq<char> {
    let ds = st.driver_status;
    let head = spec_submit_text(spec_batch_text(spec_header_text(Seq::empty(), ds), ds.batch), st.npu_context.submit);
    spec_core_text(spec_core_text(spec_core_text(head, 0, ds.cores[0]), 1, ds.cores[1]), 2, ds.cores[2])
}

/// Append the sections of one core.
fn core_text(out: &mut String, idx: usize, c: &NpuCoreDriverStatus)
    ensures
        final(out)@ == spec_core_text(old(out)@, idx, *c),
{
    core_state_text(out, idx, c);
    pc_regs_text(out, &c.regs.pc);
    block_regs_text(out, &c.regs);
}

impl ProcessNpuState {
    /// Render the whole state as text.
    pub fn format_pretty(&self) -> (s: String)
        ensures
            s@ == spec_pretty(*self),
    {
        let mut output = String::new();
        let ds = &self.driver_status;
        header_text(&mut output, ds);
        batch_text(&mut output, &ds.batch);
        submit_text(&mut output, &self.npu_context.submit);
        core_text(&mut output, 0, &ds.cores[0]);
        core_text(&mut output, 1, &ds.cores[1]);
        core_text(&mut output, 2, &ds.cores[2]);
        output
    }
}

} // verus!
