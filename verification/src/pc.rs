//! Programming the PC block of one core with a submission batch.
use vstd::prelude::*;
use crate::registers::{
    RknpuCore, window_store, window_word, MMIO_WINDOW_LEN, PC_BASE_ADDRESS_OFFSET, PC_INTERRUPT_MASK_OFFSET,
    PC_TASK_CON_OFFSET, PC_TASK_DMA_BASE_ADDR_OFFSET, RKNPU_PC_DATA_EXTRA_AMOUNT,
};
use crate::interrupt::{interrupt_cleared, lemma_cleared_reads};
use crate::def::{PC_OPERATION_ENABLE, PC_REGISTER_AMOUNTS, CNA_S_POINTER, CORE_S_POINTER};
use crate::data::RknpuData;
use crate::submit::{SubmitBase, SubmitRef};
use crate::job::{JobMode, RknpuTask, JOB_MODE_PINGPONG};
use crate::err::RknpuError;

verus! {

/// `n / d` rounded up.
pub open spec fn spec_div_ceil(n: int, d: int) -> int {
    if n % d == 0 {
        n / d
    } else {
        n / d + 1
    }
}

/// The `REGISTER_AMOUNTS` value of a batch: the regcmd words of a task plus
/// the PC's extra fetch, in units of `scale` words, minus one.
pub open spec fn spec_register_amount(regcfg_amount: u32, scale: u32) -> u32 {
    (spec_div_ceil(regcfg_amount + RKNPU_PC_DATA_EXTRA_AMOUNT, scale as int) - 1) as u32
}

/// The `TASK_CON` value of a batch: mode bits (ping-pong when asked) above
/// the task-count field, the task count in it.
pub open spec fn spec_task_control(flags: JobMode, task_number_bits: u32, task_number: usize) -> u32 {
    ((0x6u32 | (if flags.bits & JOB_MODE_PINGPONG == JOB_MODE_PINGPONG {
        1u32
    } else {
        0u32
    })) << task_number_bits) | (task_number as u32)
}

/// The amount register counts the regcmd words the PC fetches (the
/// batch's plus its extra words) in units of `scale`, minus one: the units
/// cover every word, and one unit fewer would not.
pub proof fn law_register_amount_covers(regcfg_amount: u32, scale: u32)
    requires
        scale > 0,
        regcfg_amount + RKNPU_PC_DATA_EXTRA_AMOUNT <= u32::MAX,
    ensures
        ({
            let total = regcfg_amount + 4;
            let units = spec_register_amount(regcfg_amount, scale) + 1;
            &&& scale * units >= total
            &&& scale * (units - 1) < total
        }),
{
    let total = regcfg_amount + 4;
    let q = total / scale as int;
    vstd::arithmetic::div_mod::lemma_fundamental_div_mod(total, scale as int);
    vstd::arithmetic::div_mod::lemma_mod_pos_bound(total, scale as int);
    assert(q >= 0 && q <= total) by (nonlinear_arith)
        requires
            total == scale * q + total % (scale as int),
            0 <= total % (scale as int) < scale,
            scale > 0,
            total > 0,
    ;
    let c = spec_div_ceil(total, scale as int);
    assert(c >= 1) by (nonlinear_arith)
        requires
            c == (if total % (scale as int) == 0 { q } else { q + 1 }),
            total == scale * q + total % (scale as int),
            total > 0,
            q >= 0,
    ;
    assert(c - 1 <= u32::MAX) by (nonlinear_arith)
        requires
            c == (if total % (scale as int) == 0 { q } else { q + 1 }),
            q <= total,
            total <= u32::MAX,
            c >= 1,
    ;
    assert(scale * c >= total && scale * (c - 1) < total) by (nonlinear_arith)
        requires
            c == (if total % (scale as int) == 0 { q } else { q + 1 }),
            total == scale * q + total % (scale as int),
            0 <= total % (scale as int) < scale,
    ;
}

/// The task control value: the task count in its low `task_number_bits`
/// bits and, above them, 0b110, with its low bit set for ping-pong mode.
pub proof fn law_task_control_fields(flags: JobMode, task_number_bits: u32, task_number: usize)
    requires
        task_number_bits <= 28,
        task_number < pow2_u32(task_number_bits),
    ensures
        spec_task_control(flags, task_number_bits, task_number) >> task_number_bits == (if flags.bits
            & 0x4 == 0x4 {
            7u32
        } else {
            6u32
        }),
        spec_task_control(flags, task_number_bits, task_number) & (pow2_u32(task_number_bits) - 1) as u32
            == task_number as u32,
{
    let m: u32 = if flags.bits & JOB_MODE_PINGPONG == JOB_MODE_PINGPONG { 7 } else { 6 };
    lemma_task_control_bits(m, task_number_bits, task_number as u32);
}

/// `2^b` for `b < 32`.
pub open spec fn pow2_u32(b: u32) -> u32 {
    (1u32 << b) as u32
}

proof fn lemma_task_control_bits(m: u32, b: u32, t: u32)
    by (bit_vector)
    requires
        m == 6 || m == 7,
        b <= 28,
        t < (1u32 << b),
    ensures
        0x6u32 | 1u32 == 7u32 && 0x6u32 | 0u32 == 6u32,
        ((m << b) | t) >> b == m,
        ((m << b) | t) & (((1u32 << b) - 1) as u32) == t,
{
}

/// The `S_POINTER` value selecting core `core_idx`.
pub open spec fn spec_core_s_pointer(core_idx: usize) -> u32 {
    (0xe + 0x1000_0000 * core_idx) as u32
}

/// The `S_POINTER` value names its core: the top four bits carry the core
/// index and the low bits (0xe) route the CNA and MAC blocks, so every core
/// an RKNPU can have (up to 16 IRQ lines) gets its own value.
pub proof fn law_s_pointer_names_core(c: usize, d: usize)
    requires
        c < 16,
        d < 16,
    ensures
        spec_core_s_pointer(c) / 0x1000_0000 == c,
        spec_core_s_pointer(c) % 0x1000_0000 == 0xe,
        c != d ==> spec_core_s_pointer(c) != spec_core_s_pointer(d),
{
    assert(0xe + 0x1000_0000 * c <= u32::MAX) by (nonlinear_arith)
        requires
            c < 16,
    ;
    assert(0xe + 0x1000_0000 * d <= u32::MAX) by (nonlinear_arith)
        requires
            d < 16,
    ;
}

/// Window `w` is window `w0` after programming the PC block with `args`:
/// batch registers set, the `INTERRUPT_CLEAR` bits dropped from the status
/// registers, the start pulse back at zero, and the CNA and MAC pointers
/// selecting the core when it has an IRQ line.
pub open spec fn pc_programmed(w0: Seq<u8>, w: Seq<u8>, config: RknpuData, args: SubmitRef) -> bool {
    let cleared = interrupt_cleared(w0, args.base.int_clear);
    &&& w.len() == MMIO_WINDOW_LEN
    &&& window_word(w, 0x10) == args.regcmd_base_addr
    &&& window_word(w, 0x14) == spec_register_amount(args.base.regcfg_amount, config.pc_data_amount_scale)
    &&& window_word(w, 0x20) == args.base.int_mask
    &&& window_word(w, 0x24) == args.base.int_clear
    &&& window_word(w, 0x28) == window_word(w0, 0x28) & !args.base.int_clear
    &&& window_word(w, 0x2c) == window_word(w0, 0x2c) & !args.base.int_clear
    &&& window_word(w, 0x30) == spec_task_control(args.base.flags, config.pc_task_number_bits, args.task_number)
    &&& window_word(w, 0x34) == args.base.task_array_dma_address
    &&& window_word(w, 0x08) == 0
    &&& (args.base.core_idx < config.irqs@.len() ==> {
        &&& window_word(w, 0x1004) == spec_core_s_pointer(args.base.core_idx)
        &&& window_word(w, 0x3004) == spec_core_s_pointer(args.base.core_idx)
    })
    &&& (args.base.core_idx >= config.irqs@.len() ==> {
        &&& window_word(w, 0x1004) == window_word(w0, 0x1004)
        &&& window_word(w, 0x3004) == window_word(w0, 0x3004)
    })
}

/// Window `w0` after programming the PC block with `args`, store by store:
/// the base address is first set to one and the core selected, then the
/// batch registers are written, the batch's interrupts cleared, the task
/// control and task array written and the start bit pulsed.
pub open spec fn pc_program_window(w0: Seq<u8>, config: RknpuData, args: SubmitRef) -> Seq<u8> {
    let ptr = spec_core_s_pointer(args.base.core_idx);
    let w1 = window_store(w0, 0x10, 1);
    let w2 = if args.base.core_idx < config.irqs@.len() {
        window_store(window_store(w1, 0x1004, ptr), 0x3004, ptr)
    } else {
        w1
    };
    let w3 = window_store(w2, 0x10, args.regcmd_base_addr);
    let w4 = window_store(w3, 0x14, spec_register_amount(args.base.regcfg_amount, config.pc_data_amount_scale));
    let w5 = window_store(w4, 0x20, args.base.int_mask);
    let w6 = interrupt_cleared(w5, args.base.int_clear);
    let w7 = window_store(
        w6,
        0x30,
        spec_task_control(args.base.flags, config.pc_task_number_bits, args.task_number),
    );
    let w8 = window_store(w7, 0x34, args.base.task_array_dma_address);
    window_store(window_store(w8, 0x08, 1), 0x08, 0)
}

/// The batch parameters fit the registers: the regcmd count plus the PC's
/// extra fetch stays in 32 bits.
pub open spec fn batch_fits(args: SubmitRef) -> bool {
    args.base.regcfg_amount + RKNPU_PC_DATA_EXTRA_AMOUNT <= u32::MAX
}

/// `n / d` rounded up, minus one, for `n > 0`.
fn amount_units(n: u32, d: u32) -> (r: u32)
    requires
        n > 0,
        d > 0,
    ensures
        r == (spec_div_ceil(n as int, d as int) - 1) as u32,
        r as int == spec_div_ceil(n as int, d as int) - 1,
{
    let q = n / d;
    let rem = n % d;
    proof {
        assert(q * d + rem == n && 0 <= rem < d) by (nonlinear_arith)
            requires
                q == n / d,
                rem == n % d,
                d > 0,
        ;
        if rem != 0 {
            assert(d >= 2);
            assert(q < 0xffff_ffff) by (nonlinear_arith)
                requires
                    q * d + rem == n,
                    d >= 2,
                    n <= 0xffff_ffff,
                    rem >= 0,
            ;
        } else {
            assert(q >= 1) by (nonlinear_arith)
                requires
                    q * d == n,
                    n > 0,
                    d > 0,
            ;
        }
    }
    let c = if rem != 0 { q + 1 } else { q };
    c - 1
}

impl RknpuCore {
    /// Write a batch register, keeping every register at least four bytes away.
    fn program_word(&mut self, offset: u16, value: u32)
        requires
            old(self).wf(),
            offset <= 0xfffc,
        ensures
            final(self).wf(),
            final(self).core_slot == old(self).core_slot,
            final(self).irq_status == old(self).irq_status,
            final(self).mmio@ == window_store(old(self).mmio@, offset as int, value),
            window_word(final(self).mmio@, offset as int) == value,
            forall|o: int|
                0 <= o && o + 4 <= MMIO_WINDOW_LEN && (o + 4 <= offset || offset + 4 <= o)
                    ==> #[trigger] window_word(final(self).mmio@, o) == window_word(old(self).mmio@, o),
    {
        self.write_reg_keeping(offset, value);
    }

    /// Point the CNA and MAC blocks at `core_idx` when it has an IRQ line.
    fn program_s_pointers(&mut self, config: &RknpuData, core_idx: usize)
        requires
            old(self).wf(),
            config.wf(),
        ensures
            final(self).wf(),
            final(self).core_slot == old(self).core_slot,
            final(self).irq_status == old(self).irq_status,
            core_idx < config.irqs@.len() ==> window_word(final(self).mmio@, 0x1004) == spec_core_s_pointer(core_idx)
                && window_word(final(self).mmio@, 0x3004) == spec_core_s_pointer(core_idx),
            core_idx < config.irqs@.len() ==> final(self).mmio@ == window_store(
                window_store(old(self).mmio@, 0x1004, spec_core_s_pointer(core_idx)),
                0x3004,
                spec_core_s_pointer(core_idx),
            ),
            core_idx >= config.irqs@.len() ==> final(self).mmio@ == old(self).mmio@,
            forall|o: int|
                0 <= o && o + 4 <= MMIO_WINDOW_LEN && (o + 4 <= 0x1004 || (0x1008 <= o && o + 4 <= 0x3004) || 0x3008 <= o)
                    ==> #[trigger] window_word(final(self).mmio@, o) == window_word(old(self).mmio@, o),
    {
        if core_idx < config.irqs.len() {
            let val: u32 = 0xe + 0x1000_0000 * core_idx as u32;
            self.program_word(CNA_S_POINTER as u16, val);
            self.program_word(CORE_S_POINTER as u16, val);
        }
    }

    /// Program the PC block with a batch and pulse its start bit.
    #[verifier::rlimit(40)]
    pub fn submit_pc(&mut self, config: &RknpuData, args: &SubmitRef) -> (r: Result<(), RknpuError>)
        requires
            old(self).wf(),
            config.wf(),
            batch_fits(*args),
        ensures
            r is Ok,
            final(self).wf(),
            final(self).core_slot == old(self).core_slot,
            final(self).irq_status == old(self).irq_status,
            final(self).mmio@ == pc_program_window(old(self).mmio@, *config, *args),
            pc_programmed(old(self).mmio@, final(self).mmio@, *config, *args),
    {
        let pc_data_amount_scale = config.pc_data_amount_scale;
        self.program_word(PC_BASE_ADDRESS_OFFSET, 1);
        let task_pp_en: u32 = if args.base.flags.contains(JobMode::from_bits_retain(JOB_MODE_PINGPONG)) {
            1
        } else {
            0
        };
        let pc_task_number_bits = config.pc_task_number_bits;
        self.program_s_pointers(config, args.base.core_idx);
        let ghost w_ptr = self.mmio@;
        self.program_word(PC_BASE_ADDRESS_OFFSET, args.regcmd_base_addr);
        let amount = amount_units(args.base.regcfg_amount + RKNPU_PC_DATA_EXTRA_AMOUNT, pc_data_amount_scale);
        self.program_word(PC_REGISTER_AMOUNTS as u16, amount);
        self.program_word(PC_INTERRUPT_MASK_OFFSET, args.base.int_mask);
        let ghost w_before_clear = self.mmio@;
        self.write_interrupt_clear(args.base.int_clear);
        proof {
            lemma_cleared_reads(w_before_clear, args.base.int_clear);
        }
        let task_number = args.task_number as u32;
        let task_control = ((0x6 | task_pp_en) << pc_task_number_bits) | task_number;
        self.program_word(PC_TASK_CON_OFFSET, task_control);
        self.program_word(PC_TASK_DMA_BASE_ADDR_OFFSET, args.base.task_array_dma_address);
        mbarrier::mb();
        self.program_word(PC_OPERATION_ENABLE as u16, 1);
        mbarrier::mb();
        self.program_word(PC_OPERATION_ENABLE as u16, 0);
        Ok(())
    }

    /// Launch one task on core `idx`: build its one-task batch, clear the
    /// published IRQ status and program the PC block.
    pub fn start_execute_one(
        &mut self,
        idx: usize,
        data: &RknpuData,
        rknpu_task: &RknpuTask,
        submit_flags: u32,
        task_dma_addr: u64,
    ) -> (r: Result<(), RknpuError>)
        requires
            old(self).wf(),
            data.wf(),
            rknpu_task.regcfg_amount + RKNPU_PC_DATA_EXTRA_AMOUNT <= u32::MAX,
        ensures
            r is Ok,
            final(self).wf(),
            final(self).core_slot == old(self).core_slot,
            final(self).irq_status == 0,
            final(self).mmio@ == pc_program_window(
                old(self).mmio@,
                *data,
                one_task_batch(idx, *rknpu_task, submit_flags, task_dma_addr),
            ),
            pc_programmed(
                old(self).mmio@,
                final(self).mmio@,
                *data,
                one_task_batch(idx, *rknpu_task, submit_flags, task_dma_addr),
            ),
    {
        let job = SubmitRef {
            base: SubmitBase {
                flags: JobMode::from_bits_retain(submit_flags),
                task_array_dma_address: task_dma_addr as u32,
                core_idx: idx,
                int_mask: rknpu_task.int_mask,
                int_clear: rknpu_task.int_mask,
                regcfg_amount: rknpu_task.regcfg_amount,
            },
            task_number: 1,
            regcmd_base_addr: rknpu_task.regcmd_addr as u32,
        };
        self.irq_status = 0;
        self.submit_pc(data, &job)
    }
}

/// The one-task batch that launches `task` on core `idx`: it waits for and
/// clears the task's own interrupt mask.
pub open spec fn one_task_batch(idx: usize, task: RknpuTask, submit_flags: u32, task_dma_addr: u64) -> SubmitRef {
    SubmitRef {
        base: SubmitBase {
            flags: JobMode { bits: submit_flags },
            task_array_dma_address: task_dma_addr as u32,
            core_idx: idx,
            int_mask: task.int_mask,
            int_clear: task.int_mask,
            regcfg_amount: task.regcfg_amount,
        },
        task_number: 1,
        regcmd_base_addr: task.regcmd_addr as u32,
    }
}

} // verus!
