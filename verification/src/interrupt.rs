//! Interrupt handling, register snapshots and PC programming of one core.
//!
//! The window stands for the core's registers between two loads of their
//! live values (see `RknpuCore::load_register`). The model of the device
//! this rests on, which nothing here proves: `INTERRUPT_CLEAR` is
//! write-one-to-clear, so the bits written to it are dropped from
//! `INTERRUPT_STATUS` and `INTERRUPT_RAW_STATUS`, and every other register
//! keeps what was last written to it until the device is read again.
use vstd::prelude::*;
use crate::registers::{
    RknpuCore, restorable, refreshed_from, scalars_restored, restore_window, law_restore_then_verify_is_clean, window_word, window_store, MMIO_WINDOW_LEN, INT_CLEAR_ALL,
    PC_INTERRUPT_CLEAR_OFFSET, PC_INTERRUPT_STATUS_OFFSET, PC_INTERRUPT_RAW_STATUS_OFFSET,
    PC_VERSION_OFFSET, PC_VERSION_NUM_OFFSET, PC_TASK_STATUS_OFFSET, PC_BASE_ADDRESS_OFFSET,
    PC_INTERRUPT_MASK_OFFSET, PC_TASK_CON_OFFSET, PC_TASK_DMA_BASE_ADDR_OFFSET,
    GLOBAL_OPERATION_ENABLE_OFFSET, RKNPU_PC_DATA_EXTRA_AMOUNT, lemma_store_then_read,
    lemma_store_keeps_other,
};
use crate::def::{PC_OPERATION_ENABLE, PC_REGISTER_AMOUNTS, CNA_S_POINTER, CORE_S_POINTER};
use crate::status::{
    ActiveCoreBinding, TaskNpuState, TaskNpuStateKey, NpuCoreRegisterSnapshot,
    NpuPcRegisterSnapshot, NpuBlockRegisterSnapshot, NpuGlobalRegisterSnapshot, NPU_MAX_CORES, fresh_task_state,
};
use crate::data::RknpuData;
use crate::submit::{SubmitBase, SubmitRef};
use crate::job::{JobMode, RknpuTask, JOB_MODE_PINGPONG};
use crate::ioctrl::RknpuSubmit;
use crate::err::RknpuError;

verus! {

/// `mbarrier::mb`, a full memory barrier of the calling CPU (`dsb sy` on
/// aarch64, `mfence` on x86): memory accesses before it complete before
/// those after it. Register accesses of this library go to the core's
/// window and reach the device only when the caller sends the logged writes
/// on, so the barrier orders the CPU's own accesses at this point, not
/// those writes. It takes nothing, returns nothing and changes no value this
/// library models, so nothing is stated of it.
pub assume_specification[mbarrier::mb]();

/// `pair` when one of its bits is set in `status`, zero otherwise.
pub open spec fn fuzz_pair(status: u32, pair: u32) -> u32 {
    if status & pair != 0 {
        pair
    } else {
        0
    }
}

/// The interrupt status widened to whole bit pairs: each of the six pairs of
/// the low twelve bits is set entirely when either of its bits is set.
pub open spec fn spec_fuzz_status(status: u32) -> u32 {
    fuzz_pair(status, 0x3) | fuzz_pair(status, 0xc) | fuzz_pair(status, 0x30) | fuzz_pair(
        status,
        0xc0,
    ) | fuzz_pair(status, 0x300) | fuzz_pair(status, 0xc00)
}

/// Widen an interrupt status to whole bit pairs.
pub fn rknpu_fuzz_status(status: u32) -> (f: u32)
    ensures
        f == spec_fuzz_status(status),
{
    let p0: u32 = if status & 0x3 != 0 { 0x3 } else { 0 };
    let p1: u32 = if status & 0xc != 0 { 0xc } else { 0 };
    let p2: u32 = if status & 0x30 != 0 { 0x30 } else { 0 };
    let p3: u32 = if status & 0xc0 != 0 { 0xc0 } else { 0 };
    let p4: u32 = if status & 0x300 != 0 { 0x300 } else { 0 };
    let p5: u32 = if status & 0xc00 != 0 { 0xc00 } else { 0 };
    p0 | p1 | p2 | p3 | p4 | p5
}

/// Fuzzing a fuzzed status changes nothing.
pub proof fn law_fuzz_status_idempotent(status: u32)
    ensures
        spec_fuzz_status(spec_fuzz_status(status)) == spec_fuzz_status(status),
{
    assert(spec_fuzz_status(spec_fuzz_status(status)) == spec_fuzz_status(status)) by (bit_vector);
}

/// A fuzzed status is non-zero exactly when one of the twelve low bits is
/// set; it covers each of those bits and sets no bit above them.
pub proof fn law_fuzz_status_covers_low_bits(status: u32)
    ensures
        (spec_fuzz_status(status) != 0) == (status & 0xfff != 0),
        status & 0xfff & !spec_fuzz_status(status) == 0,
        spec_fuzz_status(status) & !0xfffu32 == 0,
{
    assert((spec_fuzz_status(status) != 0) == (status & 0xfff != 0) && status & 0xfff & !spec_fuzz_status(status)
        == 0 && spec_fuzz_status(status) & !0xfffu32 == 0) by (bit_vector);
}

/// A status whose low seventeen bits were cleared fuzzes to zero.
pub proof fn lemma_cleared_status_fuzzes_to_zero(status: u32)
    ensures
        spec_fuzz_status(status & !INT_CLEAR_ALL) == 0,
{
    assert(spec_fuzz_status(status & !0x1_FFFFu32) == 0) by (bit_vector);
}

/// A window after writing `bits` to `INTERRUPT_CLEAR`.
pub open spec fn interrupt_cleared(w: Seq<u8>, bits: u32) -> Seq<u8> {
    window_store(
        window_store(window_store(w, 0x24, bits), 0x28, window_word(w, 0x28) & !bits),
        0x2c,
        window_word(w, 0x2c) & !bits,
    )
}

/// What a window reads after writing `INTERRUPT_CLEAR`.
pub proof fn lemma_cleared_reads(w: Seq<u8>, bits: u32)
    requires
        w.len() == MMIO_WINDOW_LEN,
    ensures
        interrupt_cleared(w, bits).len() == MMIO_WINDOW_LEN,
        window_word(interrupt_cleared(w, bits), 0x24) == bits,
        window_word(interrupt_cleared(w, bits), 0x28) == window_word(w, 0x28) & !bits,
        window_word(interrupt_cleared(w, bits), 0x2c) == window_word(w, 0x2c) & !bits,
        forall|o: int|
            0 <= o && o + 4 <= MMIO_WINDOW_LEN && (o + 4 <= 0x24 || 0x30 <= o) ==> #[trigger] window_word(
                interrupt_cleared(w, bits),
                o,
            ) == window_word(w, o),
{
    let w1 = window_store(w, 0x24, bits);
    let w2 = window_store(w1, 0x28, window_word(w, 0x28) & !bits);
    let w3 = window_store(w2, 0x2c, window_word(w, 0x2c) & !bits);
    lemma_store_then_read(w, 0x24, bits);
    lemma_store_then_read(w1, 0x28, window_word(w, 0x28) & !bits);
    lemma_store_then_read(w2, 0x2c, window_word(w, 0x2c) & !bits);
    lemma_store_keeps_other(w1, 0x28, window_word(w, 0x28) & !bits, 0x24);
    lemma_store_keeps_other(w2, 0x2c, window_word(w, 0x2c) & !bits, 0x24);
    lemma_store_keeps_other(w2, 0x2c, window_word(w, 0x2c) & !bits, 0x28);
    assert forall|o: int|
        0 <= o && o + 4 <= MMIO_WINDOW_LEN && (o + 4 <= 0x24 || 0x30 <= o) implies #[trigger] window_word(w3, o) == window_word(w, o) by {
        lemma_store_keeps_other(w, 0x24, bits, o);
        lemma_store_keeps_other(w1, 0x28, window_word(w, 0x28) & !bits, o);
        lemma_store_keeps_other(w2, 0x2c, window_word(w, 0x2c) & !bits, o);
    }
}

/// Storing the word a window already holds changes nothing.
pub proof fn lemma_store_same(w: Seq<u8>, offset: int)
    requires
        0 <= offset && offset + 4 <= w.len(),
    ensures
        window_store(w, offset, window_word(w, offset)) == w,
{
    let b0 = w[offset];
    let b1 = w[offset + 1];
    let b2 = w[offset + 2];
    let b3 = w[offset + 3];
    let v = window_word(w, offset);
    assert(v == crate::registers::le_word(b0, b1, b2, b3));
    assert((v & 0xff) as u8 == b0 && ((v >> 8u32) & 0xff) as u8 == b1 && ((v >> 16u32) & 0xff) as u8 == b2
        && ((v >> 24u32) & 0xff) as u8 == b3) by (bit_vector)
        requires
            v == (b0 as u32) | ((b1 as u32) << 8u32) | ((b2 as u32) << 16u32) | ((b3 as u32) << 24u32),
    ;
    assert(window_store(w, offset, v) =~= w);
}

/// Clearing the same bits twice is clearing them once.
pub proof fn lemma_clear_idempotent(w: Seq<u8>, bits: u32)
    requires
        w.len() == MMIO_WINDOW_LEN,
    ensures
        interrupt_cleared(interrupt_cleared(w, bits), bits) == interrupt_cleared(w, bits),
{
    let w1 = interrupt_cleared(w, bits);
    lemma_cleared_reads(w, bits);
    let s = window_word(w, 0x28);
    let r = window_word(w, 0x2c);
    assert((s & !bits) & !bits == s & !bits) by (bit_vector);
    assert((r & !bits) & !bits == r & !bits) by (bit_vector);
    lemma_store_same(w1, 0x24);
    lemma_store_same(w1, 0x28);
    lemma_store_same(w1, 0x2c);
}

/// Snapshot of the block whose registers start at `base`.
pub open spec fn spec_block_snapshot(w: Seq<u8>, base: int) -> NpuBlockRegisterSnapshot {
    NpuBlockRegisterSnapshot {
        s_status: window_word(w, base),
        s_pointer: window_word(w, base + 4),
        operation_enable: window_word(w, base + 8),
    }
}

/// Snapshot of every register of the recovery closure of a window.
pub open spec fn spec_register_snapshot(w: Seq<u8>) -> NpuCoreRegisterSnapshot {
    NpuCoreRegisterSnapshot {
        pc: NpuPcRegisterSnapshot {
            operation_enable: window_word(w, 0x08),
            base_address: window_word(w, 0x10),
            register_amounts: window_word(w, 0x14),
            interrupt_mask: window_word(w, 0x20),
            interrupt_status: window_word(w, 0x28),
            interrupt_raw_status: window_word(w, 0x2c),
            task_con: window_word(w, 0x30),
            task_dma_base_addr: window_word(w, 0x34),
            task_status: window_word(w, 0x3c),
        },
        cna: spec_block_snapshot(w, 0x1000),
        mac: spec_block_snapshot(w, 0x3000),
        dpu: spec_block_snapshot(w, 0x4000),
        dpu_rdma: spec_block_snapshot(w, 0x5000),
        ppu: spec_block_snapshot(w, 0x6000),
        ppu_rdma: spec_block_snapshot(w, 0x7000),
        global: NpuGlobalRegisterSnapshot { operation_enable: window_word(w, 0xf008) },
    }
}

/// Position of the state kept for `key` among the first `n`, or -1.
pub open spec fn state_index(states: Seq<TaskNpuState>, key: TaskNpuStateKey, n: nat) -> int
    decreases n,
{
    if n == 0 {
        -1
    } else if states[n - 1].key == key {
        n - 1
    } else {
        state_index(states, key, (n - 1) as nat)
    }
}

/// Characterization of `state_index`.
pub proof fn lemma_state_index(states: Seq<TaskNpuState>, key: TaskNpuStateKey, n: nat)
    requires
        n <= states.len(),
    ensures
        -1 <= state_index(states, key, n) < n,
        state_index(states, key, n) >= 0 ==> states[state_index(states, key, n)].key == key,
        state_index(states, key, n) == -1 ==> forall|j: int| 0 <= j < n ==> #[trigger] states[j].key != key,
    decreases n,
{
    if n > 0 {
        lemma_state_index(states, key, (n - 1) as nat);
    }
}

/// No two states share a key.
pub open spec fn keys_unique(states: Seq<TaskNpuState>) -> bool {
    forall|i: int, j: int|
        0 <= i < j < states.len() ==> #[trigger] states[i].key != #[trigger] states[j].key
}

/// State shared by the IRQ path and the submit path: the binding of each
/// hardware core, and the latest snapshot kept per owner and core.
pub struct RknpuSharedState {
    /// Binding of each hardware core, if one is running.
    pub active_bindings: Vec<Option<ActiveCoreBinding>>,
    /// Latest snapshot per key; no key occurs twice.
    pub task_npu_state: Vec<TaskNpuState>,
}

/// What an IRQ at a task boundary records of `binding` in a state: the
/// binding's cursors, the fuzzed status, the register snapshot, and a
/// restore image refreshed from the snapshot whose restore read back clean.
pub open spec fn irq_recorded(
    old_state: TaskNpuState,
    new_state: TaskNpuState,
    binding: ActiveCoreBinding,
    fuzzed: u32,
    regs: NpuCoreRegisterSnapshot,
) -> bool {
    &&& new_state.key == binding.key
    &&& new_state.subcore_slot == binding.subcore_slot
    &&& new_state.batch_task_start == binding.batch_task_start
    &&& new_state.batch_task_count == binding.batch_task_count
    &&& new_state.current_task_index == binding.current_task_index
    &&& new_state.expected_irq_mask == binding.expected_irq_mask
    &&& new_state.observed_irq_status == fuzzed
    &&& new_state.last_task_int_status == fuzzed & binding.expected_irq_mask
    &&& new_state.regs == regs
    &&& refreshed_from(new_state.restore_image, old_state.restore_image, regs)
    &&& new_state.restore_verified
    &&& new_state.restore_mismatch_mask == 0
}

/// An IRQ that fuzzed to `fuzzed` is recorded: it is non-zero, the core is
/// bound, and a state is kept for the binding's key.
pub open spec fn irq_records(before: Seq<TaskNpuState>, binding: Option<ActiveCoreBinding>, fuzzed: u32) -> bool {
    fuzzed != 0 && binding is Some && state_index(before, binding.unwrap().key, before.len()) >= 0
}

/// The states after an IRQ that fuzzed to `fuzzed` on a core whose binding
/// is `binding`: the state of the bound key records the IRQ when the status
/// is non-zero and such a state exists; nothing else changes.
pub open spec fn irq_effect(
    before: Seq<TaskNpuState>,
    after: Seq<TaskNpuState>,
    binding: Option<ActiveCoreBinding>,
    fuzzed: u32,
    regs: NpuCoreRegisterSnapshot,
) -> bool {
    if irq_records(before, binding, fuzzed) {
        let k = state_index(before, binding.unwrap().key, before.len());
        &&& after.len() == before.len()
        &&& forall|j: int| 0 <= j < before.len() && j != k ==> #[trigger] after[j] == before[j]
        &&& irq_recorded(before[k], after[k], binding.unwrap(), fuzzed, regs)
    } else {
        after == before
    }
}

/// The window an IRQ leaves behind, from the window `w` it found, the
/// states `before` and `after` it and the core's binding: every interrupt
/// cleared and, when the IRQ is recorded, the recorded state's restore
/// image written as poison and then restored.
pub open spec fn irq_taken_window(
    w: Seq<u8>,
    before: Seq<TaskNpuState>,
    binding: Option<ActiveCoreBinding>,
    after: Seq<TaskNpuState>,
) -> Seq<u8> {
    let cleared = interrupt_cleared(w, INT_CLEAR_ALL);
    if irq_records(before, binding, spec_fuzz_status(window_word(w, 0x28))) {
        let image = after[state_index(before, binding.unwrap().key, before.len())].restore_image;
        restore_window(restore_window(cleared, image, true), image, false)
    } else {
        cleared
    }
}

impl RknpuSharedState {
    /// One binding slot per hardware core, and unique keys.
    pub open spec fn wf(&self) -> bool {
        &&& self.active_bindings@.len() == NPU_MAX_CORES
        &&& keys_unique(self.task_npu_state@)
        &&& forall|i: int| 0 <= i < self.task_npu_state@.len() ==> restorable(#[trigger] self.task_npu_state@[i].restore_image)
    }

    /// The binding of `core_slot`, `None` past the last core.
    pub open spec fn binding_of(&self, core_slot: int) -> Option<ActiveCoreBinding> {
        if 0 <= core_slot < self.active_bindings@.len() {
            self.active_bindings@[core_slot]
        } else {
            None
        }
    }

    /// No core bound and no state kept.
    pub fn new() -> (s: RknpuSharedState)
        ensures
            s.wf(),
            forall|i: int| 0 <= i < NPU_MAX_CORES ==> #[trigger] s.active_bindings@[i] is None,
            s.task_npu_state@.len() == 0,
    {
        let mut active_bindings: Vec<Option<ActiveCoreBinding>> = Vec::new();
        active_bindings.push(None);
        active_bindings.push(None);
        active_bindings.push(None);
        RknpuSharedState { active_bindings, task_npu_state: Vec::new() }
    }

    /// The binding of a core.
    pub fn active_binding(&self, core_slot: usize) -> (b: Option<ActiveCoreBinding>)
        ensures
            b == self.binding_of(core_slot as int),
    {
        if core_slot < self.active_bindings.len() {
            self.active_bindings[core_slot]
        } else {
            None
        }
    }

    /// Position of the state kept for `key`.
    pub fn find_state(&self, key: TaskNpuStateKey) -> (r: Option<usize>)
        ensures
            match r {
                Some(i) => i as int == state_index(self.task_npu_state@, key, self.task_npu_state@.len()),
                None => state_index(self.task_npu_state@, key, self.task_npu_state@.len()) == -1,
            },
    {
        let mut i: usize = self.task_npu_state.len();
        while i > 0
            invariant
                i <= self.task_npu_state@.len(),
                state_index(self.task_npu_state@, key, self.task_npu_state@.len()) == state_index(
                    self.task_npu_state@,
                    key,
                    i as nat,
                ),
            decreases i,
        {
            if self.task_npu_state[i - 1].key == key {
                return Some(i - 1);
            }
            i = i - 1;
        }
        None
    }

    /// Keep a default state for `key` unless one is kept already.
    pub fn ensure_task_state_entry(&mut self, key: TaskNpuStateKey)
        requires
            old(self).wf(),
        ensures
            final(self).wf(),
            final(self).active_bindings@ == old(self).active_bindings@,
            state_index(old(self).task_npu_state@, key, old(self).task_npu_state@.len()) >= 0
                ==> final(self).task_npu_state@ == old(self).task_npu_state@,
            state_index(old(self).task_npu_state@, key, old(self).task_npu_state@.len()) == -1 ==> {
                &&& final(self).task_npu_state@.len() == old(self).task_npu_state@.len() + 1
                &&& final(self).task_npu_state@.drop_last() == old(self).task_npu_state@
                &&& fresh_task_state(final(self).task_npu_state@.last(), key)
            },
    {
        if self.find_state(key).is_none() {
            proof {
                lemma_state_index(self.task_npu_state@, key, self.task_npu_state@.len());
            }
            let mut state = TaskNpuState::default();
            state.key = key;
            self.task_npu_state.push(state);
            assert(self.task_npu_state@.drop_last() =~= old(self).task_npu_state@);
        }
    }

    /// Bind `binding` to its core and keep `state` for its key, replacing
    /// any state kept for that key.
    pub fn prepare_active_binding(&mut self, binding: ActiveCoreBinding, state: TaskNpuState)
        requires
            old(self).wf(),
            restorable(state.restore_image),
        ensures
            final(self).wf(),
            (binding.key.core_slot as int) < NPU_MAX_CORES ==> final(self).active_bindings@
                == old(self).active_bindings@.update(binding.key.core_slot as int, Some(binding)),
            (binding.key.core_slot as int) >= NPU_MAX_CORES ==> final(self).active_bindings@
                == old(self).active_bindings@,
            state_index(old(self).task_npu_state@, state.key, old(self).task_npu_state@.len()) >= 0
                ==> final(self).task_npu_state@ == old(self).task_npu_state@.update(
                state_index(old(self).task_npu_state@, state.key, old(self).task_npu_state@.len()),
                state,
            ),
            state_index(old(self).task_npu_state@, state.key, old(self).task_npu_state@.len()) == -1
                ==> final(self).task_npu_state@ == old(self).task_npu_state@.push(state),
    {
        let slot = binding.key.core_slot as usize;
        if slot < self.active_bindings.len() {
            self.active_bindings.set(slot, Some(binding));
        }
        proof {
            lemma_state_index(self.task_npu_state@, state.key, self.task_npu_state@.len());
        }
        match self.find_state(state.key) {
            Some(i) => {
                let _old = self.task_npu_state.remove(i);
                self.task_npu_state.insert(i, state);
                assert(self.task_npu_state@ =~= old(self).task_npu_state@.update(i as int, state));
            },
            None => {
                self.task_npu_state.push(state);
            },
        }
    }
}

impl RknpuCore {
    /// Write `INTERRUPT_CLEAR`. The one write the device is sent is that
    /// of `INTERRUPT_CLEAR`; the window then takes what the device does by
    /// itself, as this module's model of it assumes: the bits written leave
    /// both status registers.
    pub fn write_interrupt_clear(&mut self, bits: u32)
        requires
            old(self).wf(),
        ensures
            final(self).wf(),
            final(self).core_slot == old(self).core_slot,
            final(self).irq_status == old(self).irq_status,
            final(self).mmio@ == interrupt_cleared(old(self).mmio@, bits),
    {
        let status = self.read_mmio_u32(PC_INTERRUPT_STATUS_OFFSET);
        let raw = self.read_mmio_u32(PC_INTERRUPT_RAW_STATUS_OFFSET);
        self.write_mmio_u32(PC_INTERRUPT_CLEAR_OFFSET, bits);
        self.load_register(PC_INTERRUPT_STATUS_OFFSET, status & !bits);
        self.load_register(PC_INTERRUPT_RAW_STATUS_OFFSET, raw & !bits);
    }

    /// Clear every interrupt of the core.
    pub fn clean_interrupts(&mut self)
        requires
            old(self).wf(),
        ensures
            final(self).wf(),
            final(self).core_slot == old(self).core_slot,
            final(self).irq_status == old(self).irq_status,
            final(self).mmio@ == interrupt_cleared(old(self).mmio@, INT_CLEAR_ALL),
    {
        self.write_interrupt_clear(INT_CLEAR_ALL);
    }

    /// Hardware version: `VERSION` plus the low half of `VERSION_NUM`,
    /// wrapping.
    pub fn version(&self) -> (v: u32)
        requires
            self.wf(),
        ensures
            v as int == (window_word(self.mmio@, 0x0) as int + (window_word(self.mmio@, 0x4) & 0xffff) as int)
                % 0x1_0000_0000,
    {
        let major = self.read_mmio_u32(PC_VERSION_OFFSET);
        let minor = self.read_mmio_u32(PC_VERSION_NUM_OFFSET) & 0xffff;
        major.wrapping_add(minor)
    }

    /// Snapshot of the block whose registers start at `base`.
    fn read_block_snapshot(&self, base: u16) -> (r: NpuBlockRegisterSnapshot)
        requires
            self.wf(),
            base <= 0xfff0,
        ensures
            r == spec_block_snapshot(self.mmio@, base as int),
    {
        NpuBlockRegisterSnapshot {
            s_status: self.read_mmio_u32(base),
            s_pointer: self.read_mmio_u32(base + 4),
            operation_enable: self.read_mmio_u32(base + 8),
        }
    }

    /// Read every register of the recovery closure.
    pub fn read_register_snapshot(&self) -> (r: NpuCoreRegisterSnapshot)
        requires
            self.wf(),
        ensures
            r == spec_register_snapshot(self.mmio@),
    {
        NpuCoreRegisterSnapshot {
            pc: NpuPcRegisterSnapshot {
                operation_enable: self.read_mmio_u32(PC_OPERATION_ENABLE as u16),
                base_address: self.read_mmio_u32(PC_BASE_ADDRESS_OFFSET),
                register_amounts: self.read_mmio_u32(PC_REGISTER_AMOUNTS as u16),
                interrupt_mask: self.read_mmio_u32(PC_INTERRUPT_MASK_OFFSET),
                interrupt_status: self.read_mmio_u32(PC_INTERRUPT_STATUS_OFFSET),
                interrupt_raw_status: self.read_mmio_u32(PC_INTERRUPT_RAW_STATUS_OFFSET),
                task_con: self.read_mmio_u32(PC_TASK_CON_OFFSET),
                task_dma_base_addr: self.read_mmio_u32(PC_TASK_DMA_BASE_ADDR_OFFSET),
                task_status: self.read_mmio_u32(PC_TASK_STATUS_OFFSET),
            },
            cna: self.read_block_snapshot(0x1000),
            mac: self.read_block_snapshot(0x3000),
            dpu: self.read_block_snapshot(0x4000),
            dpu_rdma: self.read_block_snapshot(0x5000),
            ppu: self.read_block_snapshot(0x6000),
            ppu_rdma: self.read_block_snapshot(0x7000),
            global: NpuGlobalRegisterSnapshot {
                operation_enable: self.read_mmio_u32(GLOBAL_OPERATION_ENABLE_OFFSET),
            },
        }
    }

    /// Record a boundary IRQ in `state`: the binding's cursors, the status,
    /// the snapshot, and a restore image refreshed from the snapshot, then
    /// poison the registers, restore them from the image and read them back.
    #[verifier::rlimit(30)]
    fn record_boundary(
        &mut self,
        state: &mut TaskNpuState,
        binding: ActiveCoreBinding,
        fuzzed: u32,
        live_regs: NpuCoreRegisterSnapshot,
    )
        requires
            old(self).wf(),
            restorable(old(state).restore_image),
        ensures
            final(self).wf(),
            final(self).core_slot == old(self).core_slot,
            final(self).irq_status == old(self).irq_status,
            window_word(final(self).mmio@, 0x28) == window_word(old(self).mmio@, 0x28),
            window_word(final(self).mmio@, 0x2c) == window_word(old(self).mmio@, 0x2c),
            irq_recorded(*old(state), *final(state), binding, fuzzed, live_regs),
            restorable(final(state).restore_image),
            final(self).mmio@ == restore_window(
                restore_window(old(self).mmio@, final(state).restore_image, true),
                final(state).restore_image,
                false,
            ),
            scalars_restored(final(self).mmio@, final(state).restore_image),
    {
        state.key = binding.key;
        state.subcore_slot = binding.subcore_slot;
        state.batch_task_start = binding.batch_task_start;
        state.batch_task_count = binding.batch_task_count;
        state.current_task_index = binding.current_task_index;
        state.expected_irq_mask = binding.expected_irq_mask;
        state.observed_irq_status = fuzzed;
        state.last_task_int_status = fuzzed & binding.expected_irq_mask;
        state.regs = live_regs;
        RknpuCore::refresh_restore_image_from_snapshot(&mut state.restore_image, &live_regs);
        assert(state.restore_image.task_shadow_writes@ == old(state).restore_image.task_shadow_writes@);
        self.apply_poison_to_restore_image(&state.restore_image);
        self.apply_restore_image(&state.restore_image);
        state.restore_mismatch_mask = self.verify_restore_image(&state.restore_image);
        proof {
            law_restore_then_verify_is_clean(self.mmio@, state.restore_image);
        }
        state.restore_verified = state.restore_mismatch_mask == 0;
    }

    /// Take the IRQ: snapshot the registers, clear every interrupt and fuzz
    /// the status it had. When non-zero, and the core's bound owner has a
    /// state, record the IRQ there: refresh its restore image from the
    /// snapshot, overwrite the registers with poison, restore them from the
    /// image and read them back. Publish the status in `irq_status`.
    #[verifier::rlimit(40)]
    pub fn handle_interrupt(&mut self, shared: &mut RknpuSharedState) -> (fuzzed: u32)
        requires
            old(self).wf(),
            old(shared).wf(),
        ensures
            fuzzed == spec_fuzz_status(window_word(old(self).mmio@, 0x28)),
            final(self).wf(),
            final(self).core_slot == old(self).core_slot,
            final(self).mmio@ == irq_taken_window(
                old(self).mmio@,
                old(shared).task_npu_state@,
                old(shared).binding_of(old(self).core_slot as int),
                final(shared).task_npu_state@,
            ),
            window_word(final(self).mmio@, 0x28) == window_word(old(self).mmio@, 0x28) & !INT_CLEAR_ALL,
            window_word(final(self).mmio@, 0x2c) == window_word(old(self).mmio@, 0x2c) & !INT_CLEAR_ALL,
            !irq_records(old(shared).task_npu_state@, old(shared).binding_of(old(self).core_slot as int), fuzzed)
                ==> final(self).mmio@ == interrupt_cleared(old(self).mmio@, INT_CLEAR_ALL),
            irq_records(old(shared).task_npu_state@, old(shared).binding_of(old(self).core_slot as int), fuzzed)
                ==> ({
                let image = final(shared).task_npu_state@[state_index(
                    old(shared).task_npu_state@,
                    old(shared).binding_of(old(self).core_slot as int).unwrap().key,
                    old(shared).task_npu_state@.len(),
                )].restore_image;
                &&& final(self).mmio@ == restore_window(
                    restore_window(interrupt_cleared(old(self).mmio@, INT_CLEAR_ALL), image, true),
                    image,
                    false,
                )
                &&& scalars_restored(final(self).mmio@, image)
            }),
            final(self).irq_status == (if fuzzed != 0 {
                old(self).irq_status | fuzzed
            } else {
                old(self).irq_status
            }),
            final(shared).wf(),
            final(shared).active_bindings@ == old(shared).active_bindings@,
            irq_effect(
                old(shared).task_npu_state@,
                final(shared).task_npu_state@,
                old(shared).binding_of(old(self).core_slot as int),
                fuzzed,
                spec_register_snapshot(old(self).mmio@),
            ),
    {
        let live_regs = self.read_register_snapshot();
        let int_status = live_regs.pc.interrupt_status;
        mbarrier::mb();
        self.clean_interrupts();
        proof {
            lemma_cleared_reads(old(self).mmio@, INT_CLEAR_ALL);
        }
        let fuzzed = rknpu_fuzz_status(int_status);
        if fuzzed != 0 {
            if let Some(binding) = shared.active_binding(self.core_slot as usize) {
                proof {
                    lemma_state_index(shared.task_npu_state@, binding.key, shared.task_npu_state@.len());
                }
                if let Some(i) = shared.find_state(binding.key) {
                    let mut state = shared.task_npu_state.remove(i);
                    assert(restorable(old(shared).task_npu_state@[i as int].restore_image));
                    self.record_boundary(&mut state, binding, fuzzed, live_regs);
                    shared.task_npu_state.insert(i, state);
                    proof {
                        let before = old(shared).task_npu_state@;
                        assert(shared.task_npu_state@ =~= before.update(i as int, state));
                        assert forall|a: int, b: int|
                            0 <= a < b < shared.task_npu_state@.len() implies #[trigger] shared.task_npu_state@[a].key
                                != #[trigger] shared.task_npu_state@[b].key by {
                            assert(before[a].key != before[b].key);
                        }
                        assert forall|j: int| 0 <= j < shared.task_npu_state@.len() implies restorable(
                            #[trigger] shared.task_npu_state@[j].restore_image,
                        ) by {
                            if j != i {
                                assert(shared.task_npu_state@[j] == before[j]);
                            }
                        }
                    }
                }
            }
            self.irq_status = self.irq_status | fuzzed;
        }
        fuzzed
    }

    /// Take every pending interrupt before a new task is loaded, so that a
    /// leftover of the previous batch is not attributed to the new owner;
    /// `irq_status` ends cleared. The first IRQ taken is recorded as
    /// `handle_interrupt` records it, and every interrupt ends cleared.
    pub fn drain_pending_interrupts(&mut self, shared: &mut RknpuSharedState)
        requires
            old(self).wf(),
            old(shared).wf(),
        ensures
            final(self).wf(),
            final(self).core_slot == old(self).core_slot,
            final(self).irq_status == 0,
            window_word(final(self).mmio@, 0x28) == window_word(old(self).mmio@, 0x28) & !INT_CLEAR_ALL,
            window_word(final(self).mmio@, 0x2c) == window_word(old(self).mmio@, 0x2c) & !INT_CLEAR_ALL,
            spec_fuzz_status(window_word(final(self).mmio@, 0x28)) == 0,
            final(self).mmio@ == interrupt_cleared(
                irq_taken_window(
                    old(self).mmio@,
                    old(shared).task_npu_state@,
                    old(shared).binding_of(old(self).core_slot as int),
                    final(shared).task_npu_state@,
                ),
                INT_CLEAR_ALL,
            ),
            !irq_records(
                old(shared).task_npu_state@,
                old(shared).binding_of(old(self).core_slot as int),
                spec_fuzz_status(window_word(old(self).mmio@, 0x28)),
            ) ==> final(self).mmio@ == interrupt_cleared(old(self).mmio@, INT_CLEAR_ALL),
            irq_records(
                old(shared).task_npu_state@,
                old(shared).binding_of(old(self).core_slot as int),
                spec_fuzz_status(window_word(old(self).mmio@, 0x28)),
            ) ==> ({
                let image = final(shared).task_npu_state@[state_index(
                    old(shared).task_npu_state@,
                    old(shared).binding_of(old(self).core_slot as int).unwrap().key,
                    old(shared).task_npu_state@.len(),
                )].restore_image;
                final(self).mmio@ == interrupt_cleared(
                    restore_window(
                        restore_window(interrupt_cleared(old(self).mmio@, INT_CLEAR_ALL), image, true),
                        image,
                        false,
                    ),
                    INT_CLEAR_ALL,
                )
            }),
            final(shared).wf(),
            final(shared).active_bindings@ == old(shared).active_bindings@,
            irq_effect(
                old(shared).task_npu_state@,
                final(shared).task_npu_state@,
                old(shared).binding_of(old(self).core_slot as int),
                spec_fuzz_status(window_word(old(self).mmio@, 0x28)),
                spec_register_snapshot(old(self).mmio@),
            ),
    {
        let mut pending = self.handle_interrupt(shared);
        let ghost after_first = shared.task_npu_state@;
        let ghost first_window = self.mmio@;
        let ghost target = interrupt_cleared(first_window, INT_CLEAR_ALL);
        proof {
            lemma_cleared_status_fuzzes_to_zero(window_word(old(self).mmio@, 0x28));
            if !irq_records(
                old(shared).task_npu_state@,
                old(shared).binding_of(old(self).core_slot as int),
                pending,
            ) {
                lemma_clear_idempotent(old(self).mmio@, INT_CLEAR_ALL);
            }
        }
        while pending != 0
            invariant
                self.wf(),
                shared.wf(),
                self.core_slot == old(self).core_slot,
                spec_fuzz_status(window_word(self.mmio@, 0x28)) == 0,
                window_word(self.mmio@, 0x28) == window_word(old(self).mmio@, 0x28) & !INT_CLEAR_ALL,
                window_word(self.mmio@, 0x2c) == window_word(old(self).mmio@, 0x2c) & !INT_CLEAR_ALL,
                first_window.len() == MMIO_WINDOW_LEN,
                self.mmio@ == target || (self.mmio@ == first_window && pending != 0),
                target == interrupt_cleared(first_window, INT_CLEAR_ALL),
                shared.task_npu_state@ == after_first,
                shared.active_bindings@ == old(shared).active_bindings@,
            decreases pending,
        {
            self.irq_status = 0;
            let ghost before = self.mmio@;
            pending = self.handle_interrupt(shared);
            proof {
                let s0 = window_word(old(self).mmio@, 0x28);
                let r0 = window_word(old(self).mmio@, 0x2c);
                assert((s0 & !0x1_FFFFu32) & !0x1_FFFFu32 == s0 & !0x1_FFFFu32) by (bit_vector);
                assert((r0 & !0x1_FFFFu32) & !0x1_FFFFu32 == r0 & !0x1_FFFFu32) by (bit_vector);
                lemma_cleared_status_fuzzes_to_zero(window_word(self.mmio@, 0x28));
                if before == target {
                    lemma_clear_idempotent(first_window, INT_CLEAR_ALL);
                }
            }
        }
        self.irq_status = 0;
    }
}

} // verus!
