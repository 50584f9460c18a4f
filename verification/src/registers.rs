//! Register-level view of one NPU core.
//!
//! A core's MMIO window is modelled as its 64 KiB of registers, read and
//! written as little-endian 32-bit words. On top of it sit the regcmd decoder
//! that extracts restorable task-window writes, the restore image kept at IRQ
//! boundaries, and the values the PC block is programmed with.
use vstd::prelude::*;
use crate::def::{
    BLOCK_CNA, BLOCK_CORE, BLOCK_DPU, BLOCK_DPU_RDMA, BLOCK_PC, BLOCK_PPU, BLOCK_PPU_RDMA,
    CNA_S_POINTER, CORE_S_POINTER, DPU_S_POINTER, OP_40, OP_ENABLE, OP_NONE, PC_OP_01,
    PC_OPERATION_ENABLE, PC_REGISTER_AMOUNTS,
};
use crate::status::{NpuCoreRegisterSnapshot, NpuCoreRestoreImage, NpuTaskRegisterWrite};

verus! {

/// Bits written to `INTERRUPT_CLEAR` to clear every interrupt.
pub const INT_CLEAR_ALL: u32 = 0x1_FFFF;
/// Extra regcmd words the PC block fetches beyond a task's own commands.
pub const RKNPU_PC_DATA_EXTRA_AMOUNT: u32 = 4;
/// PC `VERSION` register.
pub const PC_VERSION_OFFSET: u16 = 0x0000;
/// PC `VERSION_NUM` register.
pub const PC_VERSION_NUM_OFFSET: u16 = 0x0004;
/// PC `BASE_ADDRESS` register.
pub const PC_BASE_ADDRESS_OFFSET: u16 = 0x0010;
/// PC `INTERRUPT_MASK` register.
pub const PC_INTERRUPT_MASK_OFFSET: u16 = 0x0020;
/// PC `INTERRUPT_CLEAR` register.
pub const PC_INTERRUPT_CLEAR_OFFSET: u16 = 0x0024;
/// PC `INTERRUPT_STATUS` register.
pub const PC_INTERRUPT_STATUS_OFFSET: u16 = 0x0028;
/// PC `INTERRUPT_RAW_STATUS` register.
pub const PC_INTERRUPT_RAW_STATUS_OFFSET: u16 = 0x002c;
/// PC `TASK_CON` register.
pub const PC_TASK_CON_OFFSET: u16 = 0x0030;
/// PC `TASK_DMA_BASE_ADDR` register.
pub const PC_TASK_DMA_BASE_ADDR_OFFSET: u16 = 0x0034;
/// PC `TASK_STATUS` register.
pub const PC_TASK_STATUS_OFFSET: u16 = 0x003c;
/// DPU_RDMA `S_POINTER` register.
pub const DPU_RDMA_S_POINTER_OFFSET: u16 = 0x5004;
/// PPU `S_POINTER` register.
pub const PPU_S_POINTER_OFFSET: u16 = 0x6004;
/// PPU_RDMA `S_POINTER` register.
pub const PPU_RDMA_S_POINTER_OFFSET: u16 = 0x7004;
/// CNA `OPERATION_ENABLE` register.
pub const CNA_OPERATION_ENABLE_OFFSET: u16 = 0x1008;
/// CORE `OPERATION_ENABLE` register.
pub const CORE_OPERATION_ENABLE_OFFSET: u16 = 0x3008;
/// DPU `OPERATION_ENABLE` register.
pub const DPU_OPERATION_ENABLE_OFFSET: u16 = 0x4008;
/// DPU_RDMA `OPERATION_ENABLE` register.
pub const DPU_RDMA_OPERATION_ENABLE_OFFSET: u16 = 0x5008;
/// PPU `OPERATION_ENABLE` register.
pub const PPU_OPERATION_ENABLE_OFFSET: u16 = 0x6008;
/// PPU_RDMA `OPERATION_ENABLE` register.
pub const PPU_RDMA_OPERATION_ENABLE_OFFSET: u16 = 0x7008;
/// GLOBAL `OPERATION_ENABLE` register.
pub const GLOBAL_OPERATION_ENABLE_OFFSET: u16 = 0xf008;
/// Size in bytes of one core's register window.
pub const MMIO_WINDOW_LEN: usize = 0x10000;

/// Read-only status registers that are never replayed.
pub open spec fn spec_is_readonly_snapshot_offset(offset: u16) -> bool {
    offset == 0x28 || offset == 0x2c || offset == 0x3c || offset == 0x1000 || offset == 0x3000
        || offset == 0x4000 || offset == 0x5000 || offset == 0x6000 || offset == 0x7000
}

/// The `S_POINTER` registers of the blocks.
pub open spec fn spec_is_s_pointer_offset(offset: u16) -> bool {
    offset == 0x1004 || offset == 0x3004 || offset == 0x4004 || offset == 0x5004 || offset == 0x6004
        || offset == 0x7004
}

/// The `OPERATION_ENABLE` registers, whose writes start hardware.
pub open spec fn spec_is_operation_enable_offset(offset: u16) -> bool {
    offset == 0x0008 || offset == 0x1008 || offset == 0x3008 || offset == 0x4008 || offset == 0x5008
        || offset == 0x6008 || offset == 0x7008 || offset == 0xf008
}

/// Registers the restore image keeps as scalars of their own.
pub open spec fn spec_offset_handled_by_restore_scalars(offset: u16) -> bool {
    offset == 0x0008 || offset == 0x0010 || offset == 0x0014 || offset == 0x0020 || offset == 0x0030
        || offset == 0x0034 || spec_is_s_pointer_offset(offset) || offset == 0x1008 || offset
        == 0x3008 || offset == 0x4008 || offset == 0x5008 || offset == 0x6008 || offset == 0x7008
        || offset == 0xf008
}

/// `S_POINTER` with its clear bits (5:4) dropped.
pub open spec fn spec_sanitize_s_pointer(value: u32) -> u32 {
    value & !0x30u32
}

/// `TASK_CON` with its clear bit (13) dropped.
pub open spec fn spec_sanitize_task_con(value: u32) -> u32 {
    value & !0x2000u32
}

/// The value a task register may be restored with, if any.
pub open spec fn spec_sanitize_task_reg_value(offset: u16, value: u32) -> Option<u32> {
    if spec_is_readonly_snapshot_offset(offset) {
        None
    } else if spec_is_operation_enable_offset(offset) {
        Some(0)
    } else if spec_is_s_pointer_offset(offset) {
        Some(spec_sanitize_s_pointer(value))
    } else if offset == PC_TASK_CON_OFFSET {
        Some(spec_sanitize_task_con(value))
    } else {
        Some(value)
    }
}

/// The deterministic poison written over a register before restoring it.
pub open spec fn spec_poison_value(offset: u16, value: u32) -> u32 {
    if spec_is_operation_enable_offset(offset) {
        0
    } else if spec_is_s_pointer_offset(offset) {
        spec_sanitize_s_pointer(value ^ 0x0001_000f)
    } else if offset == PC_TASK_CON_OFFSET {
        spec_sanitize_task_con(value ^ 0x0055_00aa)
    } else {
        value ^ (0x5a5a_0000u32 | offset as u32)
    }
}

/// Opcode field of a regcmd.
pub open spec fn regcmd_opcode(regcmd: u64) -> u16 {
    ((regcmd >> 48u64) & 0xffff) as u16
}

/// Value field of a regcmd.
pub open spec fn regcmd_value(regcmd: u64) -> u32 {
    ((regcmd >> 16u64) & 0xffff_ffff) as u32
}

/// Register field of a regcmd.
pub open spec fn regcmd_offset(regcmd: u64) -> u16 {
    (regcmd & 0xffff) as u16
}

/// The restorable task-window write a regcmd performs, if any: a plain
/// register write to one of the pipeline blocks that is neither read-only
/// nor kept as a restore scalar, with its value sanitized.
pub open spec fn spec_decode_task_reg_write(regcmd: u64) -> Option<NpuTaskRegisterWrite> {
    let opcode = regcmd_opcode(regcmd);
    let offset = regcmd_offset(regcmd);
    let block = (opcode as u32 & 0xff00) as u16;
    let op_kind = opcode as u32 & 0x00ff;
    if opcode as u32 == OP_NONE || opcode as u32 == OP_40 || opcode as u32 == OP_ENABLE {
        None
    } else if op_kind != PC_OP_01 {
        None
    } else if !(block as u32 == BLOCK_PC || block as u32 == BLOCK_CNA || block as u32 == BLOCK_CORE
        || block as u32 == BLOCK_DPU || block as u32 == BLOCK_DPU_RDMA || block as u32 == BLOCK_PPU
        || block as u32 == BLOCK_PPU_RDMA) {
        None
    } else if spec_offset_handled_by_restore_scalars(offset) || spec_is_readonly_snapshot_offset(
        offset,
    ) {
        None
    } else {
        match spec_sanitize_task_reg_value(offset, regcmd_value(regcmd)) {
            Some(v) => Some(NpuTaskRegisterWrite { block, offset, value: v }),
            None => None,
        }
    }
}

/// Position of the first write to `offset` among the first `n`, or -1.
pub open spec fn first_write_to(ws: Seq<NpuTaskRegisterWrite>, offset: u16, n: nat) -> int
    decreases n,
{
    if n == 0 {
        -1
    } else {
        let r = first_write_to(ws, offset, (n - 1) as nat);
        if r >= 0 {
            r
        } else if ws[n - 1].offset == offset {
            n - 1
        } else {
            -1
        }
    }
}

/// The shadow writes of a regcmd stream: one entry per register, in order of
/// first appearance, holding the value of the last write to it.
pub open spec fn spec_shadow_writes(regcmds: Seq<u64>) -> Seq<NpuTaskRegisterWrite>
    decreases regcmds.len(),
{
    if regcmds.len() == 0 {
        Seq::empty()
    } else {
        let prev = spec_shadow_writes(regcmds.drop_last());
        match spec_decode_task_reg_write(regcmds.last()) {
            None => prev,
            Some(w) => {
                let k = first_write_to(prev, w.offset, prev.len());
                if k >= 0 {
                    prev.update(k, w)
                } else {
                    prev.push(w)
                }
            },
        }
    }
}

/// Characterization of `first_write_to`.
pub proof fn lemma_first_write_to(ws: Seq<NpuTaskRegisterWrite>, offset: u16, n: nat)
    requires
        n <= ws.len(),
    ensures
        -1 <= first_write_to(ws, offset, n) < n,
        first_write_to(ws, offset, n) >= 0 ==> ws[first_write_to(ws, offset, n)].offset == offset,
        first_write_to(ws, offset, n) == -1 ==> forall|j: int| 0 <= j < n ==> #[trigger] ws[j].offset != offset,
    decreases n,
{
    if n > 0 {
        lemma_first_write_to(ws, offset, (n - 1) as nat);
    }
}

/// A first match at `i` is the first match of every longer prefix.
pub proof fn lemma_first_write_to_at(ws: Seq<NpuTaskRegisterWrite>, offset: u16, i: int, n: nat)
    requires
        0 <= i < n <= ws.len(),
        ws[i].offset == offset,
        forall|j: int| 0 <= j < i ==> #[trigger] ws[j].offset != offset,
    ensures
        first_write_to(ws, offset, n) == i,
    decreases n,
{
    if n > i + 1 {
        lemma_first_write_to_at(ws, offset, i, (n - 1) as nat);
    } else {
        lemma_no_write_to(ws, offset, i as nat);
    }
}

/// No write to `offset` in the prefix gives -1.
pub proof fn lemma_no_write_to(ws: Seq<NpuTaskRegisterWrite>, offset: u16, n: nat)
    requires
        n <= ws.len(),
        forall|j: int| 0 <= j < n ==> #[trigger] ws[j].offset != offset,
    ensures
        first_write_to(ws, offset, n) == -1,
    decreases n,
{
    if n > 0 {
        lemma_no_write_to(ws, offset, (n - 1) as nat);
    }
}

/// One core of the NPU: its register window and its published IRQ status.
pub struct RknpuCore {
    /// Bytes of the core's 64 KiB register window.
    pub mmio: Vec<u8>,
    /// Hardware core slot.
    pub core_slot: u8,
    /// Interrupt status published by the IRQ path; zero means none pending.
    pub irq_status: u32,
    /// The register writes made to the window since they were last taken,
    /// in order: what the device itself must be sent.
    pub writes: Vec<(u16, u32)>,
}

/// Little-endian 32-bit word of four bytes.
pub open spec fn le_word(b0: u8, b1: u8, b2: u8, b3: u8) -> u32 {
    (b0 as u32) | ((b1 as u32) << 8u32) | ((b2 as u32) << 16u32) | ((b3 as u32) << 24u32)
}

/// The word stored at byte `offset` of a window.
pub open spec fn window_word(w: Seq<u8>, offset: int) -> u32 {
    le_word(w[offset], w[offset + 1], w[offset + 2], w[offset + 3])
}

/// A window after storing `value` little-endian at byte `offset`.
pub open spec fn window_store(w: Seq<u8>, offset: int, value: u32) -> Seq<u8> {
    w.update(offset, (value & 0xff) as u8).update(offset + 1, ((value >> 8u32) & 0xff) as u8).update(
        offset + 2,
        ((value >> 16u32) & 0xff) as u8,
    ).update(offset + 3, ((value >> 24u32) & 0xff) as u8)
}

/// Storing a word and reading it back gives the word.
pub proof fn lemma_store_then_read(w: Seq<u8>, offset: int, value: u32)
    requires
        0 <= offset && offset + 4 <= w.len(),
    ensures
        window_word(window_store(w, offset, value), offset) == value,
        window_store(w, offset, value).len() == w.len(),
{
    let b0 = (value & 0xff) as u8;
    let b1 = ((value >> 8u32) & 0xff) as u8;
    let b2 = ((value >> 16u32) & 0xff) as u8;
    let b3 = ((value >> 24u32) & 0xff) as u8;
    assert(le_word(b0, b1, b2, b3) == value) by (bit_vector)
        requires
            b0 == (value & 0xff) as u8,
            b1 == ((value >> 8u32) & 0xff) as u8,
            b2 == ((value >> 16u32) & 0xff) as u8,
            b3 == ((value >> 24u32) & 0xff) as u8,
    ;
}

/// Storing a word leaves every word at least four bytes away unchanged.
pub proof fn lemma_store_keeps_other(w: Seq<u8>, offset: int, value: u32, other: int)
    requires
        0 <= offset && offset + 4 <= w.len(),
        0 <= other && other + 4 <= w.len(),
        other + 4 <= offset || offset + 4 <= other,
    ensures
        window_word(window_store(w, offset, value), other) == window_word(w, other),
{
}


/// Regcmd `m` writes register `o`.
pub open spec fn writes_at(regcmds: Seq<u64>, m: int, o: u16) -> bool {
    spec_decode_task_reg_write(regcmds[m]) is Some && spec_decode_task_reg_write(
        regcmds[m],
    ).unwrap().offset == o
}

/// Regcmd `m` is the last one that writes register `o`.
pub open spec fn is_last_write(regcmds: Seq<u64>, m: int, o: u16) -> bool {
    &&& 0 <= m < regcmds.len()
    &&& writes_at(regcmds, m, o)
    &&& forall|m2: int| m < m2 < regcmds.len() ==> !#[trigger] writes_at(regcmds, m2, o)
}

/// Shadow entry `i` equals the write of the last regcmd that writes its register.
pub open spec fn entry_from_last_write(regcmds: Seq<u64>, i: int) -> bool {
    exists|m: int|
        #[trigger] is_last_write(regcmds, m, spec_shadow_writes(regcmds)[i].offset)
            && spec_decode_task_reg_write(regcmds[m]) == Some(spec_shadow_writes(regcmds)[i])
}

/// The register written by regcmd `m` has a shadow entry.
pub open spec fn write_listed(regcmds: Seq<u64>, m: int) -> bool {
    exists|i: int|
        0 <= i < spec_shadow_writes(regcmds).len() && #[trigger] spec_shadow_writes(regcmds)[i].offset
            == spec_decode_task_reg_write(regcmds[m]).unwrap().offset
}

/// Every entry of the shadow writes is what the last regcmd writing its
/// register writes; each register appears once; and every register some
/// regcmd writes appears.
pub proof fn law_shadow_writes_keep_last(regcmds: Seq<u64>)
    ensures
        forall|i: int, j: int|
            0 <= i < j < spec_shadow_writes(regcmds).len() ==> #[trigger] spec_shadow_writes(regcmds)[i].offset
                != #[trigger] spec_shadow_writes(regcmds)[j].offset,
        forall|i: int|
            0 <= i < spec_shadow_writes(regcmds).len() ==> #[trigger] entry_from_last_write(regcmds, i),
        forall|m: int|
            0 <= m < regcmds.len() && spec_decode_task_reg_write(regcmds[m]) is Some
                ==> #[trigger] write_listed(regcmds, m),
    decreases regcmds.len(),
{
    if regcmds.len() > 0 {
        let prev_cmds = regcmds.drop_last();
        law_shadow_writes_keep_last(prev_cmds);
        let prev = spec_shadow_writes(prev_cmds);
        let last = regcmds.len() - 1;
        assert forall|m: int| 0 <= m < prev_cmds.len() implies prev_cmds[m] == regcmds[m] by {}
        let dl = spec_decode_task_reg_write(regcmds[last]);
        assert(regcmds.last() == regcmds[last]);
        let k = if dl is Some { first_write_to(prev, dl.unwrap().offset, prev.len()) } else { -1 };
        if dl is Some {
            lemma_first_write_to(prev, dl.unwrap().offset, prev.len());
        }
        assert forall|i: int, j: int|
            0 <= i < j < spec_shadow_writes(regcmds).len() implies #[trigger] spec_shadow_writes(regcmds)[i].offset != #[trigger] spec_shadow_writes(regcmds)[j].offset by {
            if dl is Some && k < 0 && j == prev.len() {
                assert(spec_shadow_writes(regcmds)[i] == prev[i]);
            } else if dl is Some && k >= 0 && (i == k || j == k) {
                assert(spec_shadow_writes(regcmds)[i].offset == prev[i].offset);
                assert(spec_shadow_writes(regcmds)[j].offset == prev[j].offset);
            } else {
                assert(spec_shadow_writes(regcmds)[i] == prev[i]);
                assert(spec_shadow_writes(regcmds)[j] == prev[j]);
            }
        }
        // Entries keep a last-write witness.
        assert forall|i: int| 0 <= i < spec_shadow_writes(regcmds).len() implies #[trigger] entry_from_last_write(regcmds, i) by {
            let fresh = dl is Some && ((k >= 0 && i == k) || (k < 0 && i == prev.len()));
            if fresh {
                assert(spec_shadow_writes(regcmds)[i] == dl.unwrap());
                assert(is_last_write(regcmds, last, spec_shadow_writes(regcmds)[i].offset));
            } else {
                assert(i < prev.len());
                assert(spec_shadow_writes(regcmds)[i] == prev[i]);
                assert(entry_from_last_write(prev_cmds, i));
                let m = choose|m: int|
                    #[trigger] is_last_write(prev_cmds, m, prev[i].offset) && spec_decode_task_reg_write(
                        prev_cmds[m],
                    ) == Some(prev[i]);
                assert(dl is Some ==> prev[i].offset != dl.unwrap().offset);
                assert forall|m2: int| m < m2 < regcmds.len() implies !#[trigger] writes_at(
                    regcmds,
                    m2,
                    spec_shadow_writes(regcmds)[i].offset,
                ) by {
                    if m2 < prev_cmds.len() {
                        assert(!writes_at(prev_cmds, m2, prev[i].offset));
                    }
                }
                assert(is_last_write(regcmds, m, spec_shadow_writes(regcmds)[i].offset));
            }
        }
        // Every written register appears.
        assert forall|m: int|
            0 <= m < regcmds.len() && spec_decode_task_reg_write(regcmds[m]) is Some implies #[trigger] write_listed(regcmds, m) by {
            if m == last {
                if k >= 0 {
                    assert(spec_shadow_writes(regcmds)[k].offset == dl.unwrap().offset);
                } else {
                    assert(spec_shadow_writes(regcmds)[prev.len() as int].offset == dl.unwrap().offset);
                }
            } else {
                assert(regcmds[m] == prev_cmds[m]);
                assert(write_listed(prev_cmds, m));
                let i = choose|i: int|
                    0 <= i < prev.len() && #[trigger] prev[i].offset == spec_decode_task_reg_write(
                        prev_cmds[m],
                    ).unwrap().offset;
                if dl is Some && i == k {
                    assert(spec_shadow_writes(regcmds)[i].offset == prev[i].offset);
                } else {
                    assert(spec_shadow_writes(regcmds)[i] == prev[i]);
                }
            }
        }
    } else {
        assert(spec_shadow_writes(regcmds).len() == 0);
    }
}

impl RknpuCore {
    /// The window is a full 64 KiB register file.
    pub open spec fn wf(&self) -> bool {
        self.mmio@.len() == MMIO_WINDOW_LEN
    }

    /// The register word at `offset`.
    pub open spec fn reg(&self, offset: u16) -> u32 {
        window_word(self.mmio@, offset as int)
    }

    /// A core with an all-zero register window, nothing published and no
    /// write pending.
    pub fn new(core_slot: u8) -> (c: RknpuCore)
        ensures
            c.wf(),
            c.core_slot == core_slot,
            c.irq_status == 0,
            c.writes@.len() == 0,
            forall|i: int| 0 <= i < MMIO_WINDOW_LEN ==> #[trigger] c.mmio@[i] == 0,
    {
        let mut mmio: Vec<u8> = Vec::new();
        let mut i: usize = 0;
        while i < MMIO_WINDOW_LEN
            invariant
                i <= MMIO_WINDOW_LEN,
                mmio@.len() == i,
                forall|j: int| 0 <= j < i ==> #[trigger] mmio@[j] == 0,
            decreases MMIO_WINDOW_LEN - i,
        {
            mmio.push(0);
            i = i + 1;
        }
        RknpuCore { mmio, core_slot, irq_status: 0, writes: Vec::new() }
    }

    /// Read the 32-bit register at `offset`.
    pub fn read_mmio_u32(&self, offset: u16) -> (v: u32)
        requires
            self.wf(),
            offset <= 0xfffc,
        ensures
            v == self.reg(offset),
    {
        let o = offset as usize;
        (self.mmio[o] as u32) | ((self.mmio[o + 1] as u32) << 8u32) | ((self.mmio[o + 2] as u32)
            << 16u32) | ((self.mmio[o + 3] as u32) << 24u32)
    }

    /// Take the register writes made since they were last taken, in order.
    pub fn take_writes(&mut self) -> (w: Vec<(u16, u32)>)
        ensures
            w@ == old(self).writes@,
            final(self).writes@.len() == 0,
            final(self).mmio@ == old(self).mmio@,
            final(self).core_slot == old(self).core_slot,
            final(self).irq_status == old(self).irq_status,
    {
        let mut taken: Vec<(u16, u32)> = Vec::new();
        std::mem::swap(&mut taken, &mut self.writes);
        taken
    }

    /// Put the value the device holds at `offset` into the window; unlike a
    /// write, it is not sent to the device again.
    pub fn load_register(&mut self, offset: u16, value: u32)
        requires
            old(self).wf(),
            offset <= 0xfffc,
        ensures
            final(self).wf(),
            final(self).mmio@ == window_store(old(self).mmio@, offset as int, value),
            final(self).core_slot == old(self).core_slot,
            final(self).irq_status == old(self).irq_status,
            final(self).writes@ == old(self).writes@,
    {
        let o = offset as usize;
        self.mmio.set(o, (value & 0xff) as u8);
        self.mmio.set(o + 1, ((value >> 8u32) & 0xff) as u8);
        self.mmio.set(o + 2, ((value >> 16u32) & 0xff) as u8);
        self.mmio.set(o + 3, ((value >> 24u32) & 0xff) as u8);
    }

    /// Write the 32-bit register at `offset`: the window takes the value and
    /// the write joins the ones the device must be sent.
    pub fn write_mmio_u32(&mut self, offset: u16, value: u32)
        requires
            old(self).wf(),
            offset <= 0xfffc,
        ensures
            final(self).wf(),
            final(self).mmio@ == window_store(old(self).mmio@, offset as int, value),
            final(self).core_slot == old(self).core_slot,
            final(self).irq_status == old(self).irq_status,
            final(self).reg(offset) == value,
            final(self).writes@ == old(self).writes@.push((offset, value)),
    {
        self.writes.push((offset, value));
        let o = offset as usize;
        self.mmio.set(o, (value & 0xff) as u8);
        self.mmio.set(o + 1, ((value >> 8u32) & 0xff) as u8);
        self.mmio.set(o + 2, ((value >> 16u32) & 0xff) as u8);
        self.mmio.set(o + 3, ((value >> 24u32) & 0xff) as u8);
        proof {
            lemma_store_then_read(old(self).mmio@, offset as int, value);
        }
    }

    /// True for read-only status registers.
    pub fn is_readonly_snapshot_offset(offset: u16) -> (b: bool)
        ensures
            b == spec_is_readonly_snapshot_offset(offset),
    {
        offset == PC_INTERRUPT_STATUS_OFFSET || offset == PC_INTERRUPT_RAW_STATUS_OFFSET || offset
            == PC_TASK_STATUS_OFFSET || offset == 0x1000 || offset == 0x3000 || offset == 0x4000
            || offset == 0x5000 || offset == 0x6000 || offset == 0x7000
    }

    /// True for the blocks' `S_POINTER` registers.
    pub fn is_s_pointer_offset(offset: u16) -> (b: bool)
        ensures
            b == spec_is_s_pointer_offset(offset),
    {
        offset == CNA_S_POINTER as u16 || offset == CORE_S_POINTER as u16 || offset
            == DPU_S_POINTER as u16 || offset == DPU_RDMA_S_POINTER_OFFSET || offset
            == PPU_S_POINTER_OFFSET || offset == PPU_RDMA_S_POINTER_OFFSET
    }

    /// True for the `OPERATION_ENABLE` registers.
    pub fn is_operation_enable_offset(offset: u16) -> (b: bool)
        ensures
            b == spec_is_operation_enable_offset(offset),
    {
        offset == PC_OPERATION_ENABLE as u16 || offset == CNA_OPERATION_ENABLE_OFFSET || offset
            == CORE_OPERATION_ENABLE_OFFSET || offset == DPU_OPERATION_ENABLE_OFFSET || offset
            == DPU_RDMA_OPERATION_ENABLE_OFFSET || offset == PPU_OPERATION_ENABLE_OFFSET || offset
            == PPU_RDMA_OPERATION_ENABLE_OFFSET || offset == GLOBAL_OPERATION_ENABLE_OFFSET
    }

    /// True for registers kept as restore-image scalars.
    pub fn offset_handled_by_restore_scalars(offset: u16) -> (b: bool)
        ensures
            b == spec_offset_handled_by_restore_scalars(offset),
    {
        offset == PC_OPERATION_ENABLE as u16 || offset == PC_BASE_ADDRESS_OFFSET || offset
            == PC_REGISTER_AMOUNTS as u16 || offset == PC_INTERRUPT_MASK_OFFSET || offset
            == PC_TASK_CON_OFFSET || offset == PC_TASK_DMA_BASE_ADDR_OFFSET
            || Self::is_s_pointer_offset(offset) || offset == CNA_OPERATION_ENABLE_OFFSET || offset
            == CORE_OPERATION_ENABLE_OFFSET || offset == DPU_OPERATION_ENABLE_OFFSET || offset
            == DPU_RDMA_OPERATION_ENABLE_OFFSET || offset == PPU_OPERATION_ENABLE_OFFSET || offset
            == PPU_RDMA_OPERATION_ENABLE_OFFSET || offset == GLOBAL_OPERATION_ENABLE_OFFSET
    }

    /// Drop the clear bits of an `S_POINTER` value.
    pub fn sanitize_s_pointer(value: u32) -> (r: u32)
        ensures
            r == spec_sanitize_s_pointer(value),
    {
        value & !0x30u32
    }

    /// Drop the clear bit of a `TASK_CON` value.
    pub fn sanitize_task_con(value: u32) -> (r: u32)
        ensures
            r == spec_sanitize_task_con(value),
    {
        value & !0x2000u32
    }

    /// Sanitize a regcmd value before it enters the restore image.
    pub fn sanitize_task_reg_value(offset: u16, value: u32) -> (r: Option<u32>)
        ensures
            r == spec_sanitize_task_reg_value(offset, value),
    {
        if Self::is_readonly_snapshot_offset(offset) {
            None
        } else if Self::is_operation_enable_offset(offset) {
            Some(0)
        } else if Self::is_s_pointer_offset(offset) {
            Some(Self::sanitize_s_pointer(value))
        } else if offset == PC_TASK_CON_OFFSET {
            Some(Self::sanitize_task_con(value))
        } else {
            Some(value)
        }
    }

    /// Deterministic poison for a register about to be restored.
    pub fn poison_value(offset: u16, value: u32) -> (r: u32)
        ensures
            r == spec_poison_value(offset, value),
    {
        if Self::is_operation_enable_offset(offset) {
            0
        } else if Self::is_s_pointer_offset(offset) {
            Self::sanitize_s_pointer(value ^ 0x0001_000f)
        } else if offset == PC_TASK_CON_OFFSET {
            Self::sanitize_task_con(value ^ 0x0055_00aa)
        } else {
            value ^ (0x5a5a_0000u32 | offset as u32)
        }
    }

    /// Parse one regcmd into a restorable register write.
    pub fn decode_task_reg_write(regcmd: u64) -> (r: Option<NpuTaskRegisterWrite>)
        ensures
            r == spec_decode_task_reg_write(regcmd),
    {
        let opcode = ((regcmd >> 48u64) & 0xffff) as u16;
        let value = ((regcmd >> 16u64) & 0xffff_ffff) as u32;
        let offset = (regcmd & 0xffff) as u16;
        let block = (opcode as u32 & 0xff00) as u16;
        let op_kind = opcode as u32 & 0x00ff;
        if opcode as u32 == OP_NONE || opcode as u32 == OP_40 || opcode as u32 == OP_ENABLE {
            return None;
        }
        if op_kind != PC_OP_01 {
            return None;
        }
        if !(block as u32 == BLOCK_PC || block as u32 == BLOCK_CNA || block as u32 == BLOCK_CORE
            || block as u32 == BLOCK_DPU || block as u32 == BLOCK_DPU_RDMA || block as u32
            == BLOCK_PPU || block as u32 == BLOCK_PPU_RDMA) {
            return None;
        }
        if Self::offset_handled_by_restore_scalars(offset) || Self::is_readonly_snapshot_offset(
            offset,
        ) {
            return None;
        }
        match Self::sanitize_task_reg_value(offset, value) {
            Some(v) => Some(NpuTaskRegisterWrite { block, offset, value: v }),
            None => None,
        }
    }

    /// Extract the restorable task-window writes of a regcmd stream; a
    /// register written several times keeps its last value.
    pub fn build_task_shadow_writes_from_regcmds(&self, regcmds: &[u64]) -> (ws: Vec<
        NpuTaskRegisterWrite,
    >)
        ensures
            ws@ == spec_shadow_writes(regcmds@),
    {
        let mut writes: Vec<NpuTaskRegisterWrite> = Vec::new();
        let mut i: usize = 0;
        while i < regcmds.len()
            invariant
                i <= regcmds@.len(),
                writes@ == spec_shadow_writes(regcmds@.take(i as int)),
            decreases regcmds@.len() - i,
        {
            assert(regcmds@.take(i as int + 1).drop_last() =~= regcmds@.take(i as int));
            assert(regcmds@.take(i as int + 1).last() == regcmds@[i as int]);
            if let Some(write) = Self::decode_task_reg_write(regcmds[i]) {
                let mut j: usize = 0;
                while j < writes.len() && writes[j].offset != write.offset
                    invariant
                        j <= writes@.len(),
                        forall|m: int| 0 <= m < j ==> #[trigger] writes@[m].offset != write.offset,
                    decreases writes@.len() - j,
                {
                    j = j + 1;
                }
                proof {
                    lemma_first_write_to(writes@, write.offset, writes@.len());
                    if j < writes@.len() {
                        lemma_first_write_to_at(writes@, write.offset, j as int, writes@.len());
                    } else {
                        lemma_no_write_to(writes@, write.offset, writes@.len());
                    }
                }
                if j < writes.len() {
                    writes.set(j, write);
                } else {
                    writes.push(write);
                }
            }
            i = i + 1;
        }
        assert(regcmds@.take(regcmds@.len() as int) =~= regcmds@);
        writes
    }
}

/// `1 << bit` when `c` holds, zero otherwise.
pub open spec fn bit_if(c: bool, bit: u64) -> u64 {
    if c {
        1u64 << bit
    } else {
        0
    }
}

/// Read-back mismatches of the restore scalars over a window: bit `i` is set
/// when scalar `i` differs; every operation-enable register must read zero.
pub open spec fn spec_verify_mask(w: Seq<u8>, image: NpuCoreRestoreImage) -> u64 {
    bit_if(window_word(w, 0x0010) != image.pc_base_address, 0) | bit_if(window_word(w, 0x0014) != image.pc_register_amounts, 1) | bit_if(window_word(w, 0x0020) != image.pc_interrupt_mask, 2) | bit_if(window_word(w, 0x0030) != image.pc_task_con, 3) | bit_if(window_word(w, 0x0034) != image.pc_task_dma_base_addr, 4) | bit_if(window_word(w, 0x1004) != image.cna_s_pointer, 5) | bit_if(window_word(w, 0x3004) != image.mac_s_pointer, 6) | bit_if(window_word(w, 0x4004) != image.dpu_s_pointer, 7) | bit_if(window_word(w, 0x5004) != image.dpu_rdma_s_pointer, 8) | bit_if(window_word(w, 0x6004) != image.ppu_s_pointer, 9) | bit_if(window_word(w, 0x7004) != image.ppu_rdma_s_pointer, 10) | bit_if(window_word(w, 0x0008) != 0, 11) | bit_if(window_word(w, 0x1008) != 0, 12) | bit_if(window_word(w, 0x3008) != 0, 13) | bit_if(window_word(w, 0x4008) != 0, 14) | bit_if(window_word(w, 0x5008) != 0, 15) | bit_if(window_word(w, 0x6008) != 0, 16) | bit_if(window_word(w, 0x7008) != 0, 17) | bit_if(window_word(w, 0xf008) != 0, 18)
}

/// The value written for a restore scalar: the value itself, or its poison.
pub open spec fn scalar_written(offset: u16, value: u32, poison: bool) -> u32 {
    if poison {
        spec_poison_value(offset, value)
    } else {
        value
    }
}

/// Window `w` holds the eleven restore scalars of `image` (or their poison).
pub open spec fn scalars_written(w: Seq<u8>, image: NpuCoreRestoreImage, poison: bool) -> bool {
    &&& window_word(w, 0x0010) == scalar_written(0x0010, image.pc_base_address, poison)
    &&& window_word(w, 0x0014) == scalar_written(0x0014, image.pc_register_amounts, poison)
    &&& window_word(w, 0x0020) == scalar_written(0x0020, image.pc_interrupt_mask, poison)
    &&& window_word(w, 0x0030) == scalar_written(0x0030, image.pc_task_con, poison)
    &&& window_word(w, 0x0034) == scalar_written(0x0034, image.pc_task_dma_base_addr, poison)
    &&& window_word(w, 0x1004) == scalar_written(0x1004, image.cna_s_pointer, poison)
    &&& window_word(w, 0x3004) == scalar_written(0x3004, image.mac_s_pointer, poison)
    &&& window_word(w, 0x4004) == scalar_written(0x4004, image.dpu_s_pointer, poison)
    &&& window_word(w, 0x5004) == scalar_written(0x5004, image.dpu_rdma_s_pointer, poison)
    &&& window_word(w, 0x6004) == scalar_written(0x6004, image.ppu_s_pointer, poison)
    &&& window_word(w, 0x7004) == scalar_written(0x7004, image.ppu_rdma_s_pointer, poison)
}

/// Window `w` holds the image's operation enables, or zero for poison.
pub open spec fn enables_written(w: Seq<u8>, image: NpuCoreRestoreImage, poison: bool) -> bool {
    &&& window_word(w, 0x0008) == (if poison { 0 } else { image.pc_operation_enable })
    &&& window_word(w, 0x1008) == (if poison { 0 } else { image.cna_operation_enable })
    &&& window_word(w, 0x3008) == (if poison { 0 } else { image.mac_operation_enable })
    &&& window_word(w, 0x4008) == (if poison { 0 } else { image.dpu_operation_enable })
    &&& window_word(w, 0x5008) == (if poison { 0 } else { image.dpu_rdma_operation_enable })
    &&& window_word(w, 0x6008) == (if poison { 0 } else { image.ppu_operation_enable })
    &&& window_word(w, 0x7008) == (if poison { 0 } else { image.ppu_rdma_operation_enable })
    &&& window_word(w, 0xf008) == (if poison { 0 } else { image.global_operation_enable })
}

/// Window `w` after storing the eleven restore scalars of `image` (or their
/// poison), in register order.
pub open spec fn store_scalars(w: Seq<u8>, image: NpuCoreRestoreImage, poison: bool) -> Seq<u8> {
    let w1 = window_store(w, 0x0010, scalar_written(0x0010, image.pc_base_address, poison));
    let w2 = window_store(w1, 0x0014, scalar_written(0x0014, image.pc_register_amounts, poison));
    let w3 = window_store(w2, 0x0020, scalar_written(0x0020, image.pc_interrupt_mask, poison));
    let w4 = window_store(w3, 0x0030, scalar_written(0x0030, image.pc_task_con, poison));
    let w5 = window_store(w4, 0x0034, scalar_written(0x0034, image.pc_task_dma_base_addr, poison));
    let w6 = window_store(w5, 0x1004, scalar_written(0x1004, image.cna_s_pointer, poison));
    let w7 = window_store(w6, 0x3004, scalar_written(0x3004, image.mac_s_pointer, poison));
    let w8 = window_store(w7, 0x4004, scalar_written(0x4004, image.dpu_s_pointer, poison));
    let w9 = window_store(w8, 0x5004, scalar_written(0x5004, image.dpu_rdma_s_pointer, poison));
    let w10 = window_store(w9, 0x6004, scalar_written(0x6004, image.ppu_s_pointer, poison));
    window_store(w10, 0x7004, scalar_written(0x7004, image.ppu_rdma_s_pointer, poison))
}

/// Window `w` after storing the operation enables of `image` (zero for
/// poison), in register order.
pub open spec fn store_enables(w: Seq<u8>, image: NpuCoreRestoreImage, poison: bool) -> Seq<u8> {
    let w1 = window_store(w, 0x0008, if poison { 0 } else { image.pc_operation_enable });
    let w2 = window_store(w1, 0x1008, if poison { 0 } else { image.cna_operation_enable });
    let w3 = window_store(w2, 0x3008, if poison { 0 } else { image.mac_operation_enable });
    let w4 = window_store(w3, 0x4008, if poison { 0 } else { image.dpu_operation_enable });
    let w5 = window_store(w4, 0x5008, if poison { 0 } else { image.dpu_rdma_operation_enable });
    let w6 = window_store(w5, 0x6008, if poison { 0 } else { image.ppu_operation_enable });
    let w7 = window_store(w6, 0x7008, if poison { 0 } else { image.ppu_rdma_operation_enable });
    window_store(w7, 0xf008, if poison { 0 } else { image.global_operation_enable })
}

/// Window `w` after writing `image` (or its poison): the task-window
/// writes, then the scalars, then the operation enables.
pub open spec fn restore_window(w: Seq<u8>, image: NpuCoreRestoreImage, poison: bool) -> Seq<u8> {
    store_enables(store_scalars(apply_writes(w, image.task_shadow_writes@, poison), image, poison), image, poison)
}

/// All restore scalars and operation enables of `image` are stored in `w`.
pub open spec fn scalars_restored(w: Seq<u8>, image: NpuCoreRestoreImage) -> bool {
    scalars_written(w, image, false) && enables_written(w, image, false)
}

/// The image was produced from a snapshot: every operation enable is zero.
pub open spec fn enables_cleared(image: NpuCoreRestoreImage) -> bool {
    &&& image.pc_operation_enable == 0
    &&& image.cna_operation_enable == 0
    &&& image.mac_operation_enable == 0
    &&& image.dpu_operation_enable == 0
    &&& image.dpu_rdma_operation_enable == 0
    &&& image.ppu_operation_enable == 0
    &&& image.ppu_rdma_operation_enable == 0
    &&& image.global_operation_enable == 0
}

/// The value a task-window write stores: its own value, or its poison.
pub open spec fn shadow_value(write: NpuTaskRegisterWrite, poison: bool) -> u32 {
    if poison {
        spec_poison_value(write.offset, write.value)
    } else {
        write.value
    }
}

/// Window `w` after storing the task-window writes `ws` in order.
pub open spec fn apply_writes(w: Seq<u8>, ws: Seq<NpuTaskRegisterWrite>, poison: bool) -> Seq<u8>
    decreases ws.len(),
{
    if ws.len() == 0 {
        w
    } else {
        window_store(apply_writes(w, ws.drop_last(), poison), ws.last().offset as int, shadow_value(ws.last(), poison))
    }
}

/// Every task-window write lies inside the register window.
pub open spec fn shadow_in_window(image: NpuCoreRestoreImage) -> bool {
    forall|k: int| 0 <= k < image.task_shadow_writes@.len() ==> #[trigger] image.task_shadow_writes@[k].offset <= 0xfffc
}

/// Every task-window write lies inside the register window and clear of the
/// interrupt status words, so that restoring never touches them.
pub open spec fn restorable(image: NpuCoreRestoreImage) -> bool {
    forall|k: int|
        0 <= k < image.task_shadow_writes@.len() ==> #[trigger] image.task_shadow_writes@[k].offset <= 0xfffc && (
        image.task_shadow_writes@[k].offset + 4 <= 0x28 || 0x30 <= image.task_shadow_writes@[k].offset)
}

/// A restorable image lies inside the window.
pub proof fn lemma_restorable_in_window(image: NpuCoreRestoreImage)
    requires
        restorable(image),
    ensures
        shadow_in_window(image),
{
    assert forall|k: int| 0 <= k < image.task_shadow_writes@.len() implies #[trigger] image.task_shadow_writes@[k].offset <= 0xfffc by {
    }
}

/// Storing task-window writes keeps every word at least four bytes away
/// from all of them.
pub proof fn lemma_apply_writes_keeps(w: Seq<u8>, ws: Seq<NpuTaskRegisterWrite>, poison: bool, o: int)
    requires
        w.len() == MMIO_WINDOW_LEN,
        0 <= o && o + 4 <= MMIO_WINDOW_LEN,
        forall|k: int| 0 <= k < ws.len() ==> #[trigger] ws[k].offset <= 0xfffc && (ws[k].offset + 4 <= o || o + 4 <= ws[k].offset),
    ensures
        apply_writes(w, ws, poison).len() == MMIO_WINDOW_LEN,
        window_word(apply_writes(w, ws, poison), o) == window_word(w, o),
    decreases ws.len(),
{
    if ws.len() > 0 {
        let prev = ws.drop_last();
        assert forall|k: int| 0 <= k < prev.len() implies #[trigger] prev[k].offset <= 0xfffc && (prev[k].offset + 4 <= o || o + 4 <= prev[k].offset) by {
            assert(prev[k] == ws[k]);
        }
        lemma_apply_writes_keeps(w, prev, poison, o);
        let last = ws.last();
        assert(last == ws[ws.len() - 1]);
        lemma_store_then_read(apply_writes(w, prev, poison), last.offset as int, shadow_value(last, poison));
        lemma_store_keeps_other(apply_writes(w, prev, poison), last.offset as int, shadow_value(last, poison), o);
    }
}

/// The image a snapshot refreshes: scalars copied (sanitized where they hold
/// clear bits), operation enables zero, and `unsafe_snapshot` set when some
/// block was still enabled at the boundary.
pub open spec fn refreshed_from(image: NpuCoreRestoreImage, old_image: NpuCoreRestoreImage, regs: NpuCoreRegisterSnapshot) -> bool {
    &&& image.pc_operation_enable == 0
    &&& image.pc_base_address == regs.pc.base_address
    &&& image.pc_register_amounts == regs.pc.register_amounts
    &&& image.pc_interrupt_mask == regs.pc.interrupt_mask
    &&& image.pc_task_con == spec_sanitize_task_con(regs.pc.task_con)
    &&& image.pc_task_dma_base_addr == regs.pc.task_dma_base_addr
    &&& image.cna_s_pointer == spec_sanitize_s_pointer(regs.cna.s_pointer)
    &&& image.mac_s_pointer == spec_sanitize_s_pointer(regs.mac.s_pointer)
    &&& image.dpu_s_pointer == spec_sanitize_s_pointer(regs.dpu.s_pointer)
    &&& image.dpu_rdma_s_pointer == spec_sanitize_s_pointer(regs.dpu_rdma.s_pointer)
    &&& image.ppu_s_pointer == spec_sanitize_s_pointer(regs.ppu.s_pointer)
    &&& image.ppu_rdma_s_pointer == spec_sanitize_s_pointer(regs.ppu_rdma.s_pointer)
    &&& enables_cleared(image)
    &&& image.unsafe_snapshot == (regs.pc.operation_enable != 0 || regs.cna.operation_enable != 0
        || regs.mac.operation_enable != 0 || regs.dpu.operation_enable != 0
        || regs.dpu_rdma.operation_enable != 0 || regs.ppu.operation_enable != 0
        || regs.ppu_rdma.operation_enable != 0 || regs.global.operation_enable != 0)
    &&& image.task_shadow_writes@ == old_image.task_shadow_writes@
}

/// Restoring an image whose operation enables are cleared and reading it back
/// finds no mismatch.
pub proof fn law_restore_then_verify_is_clean(w: Seq<u8>, image: NpuCoreRestoreImage)
    requires
        scalars_restored(w, image),
        enables_cleared(image),
    ensures
        spec_verify_mask(w, image) == 0,
{
    assert(0u64 | 0u64 | 0u64 | 0u64 | 0u64 | 0u64 | 0u64 | 0u64 | 0u64 | 0u64 | 0u64 | 0u64 | 0u64 | 0u64 | 0u64 | 0u64 | 0u64 | 0u64 | 0u64 == 0u64) by (bit_vector);
}

impl RknpuCore {
    /// Write a register, keeping every register at least four bytes away.
    pub fn write_reg_keeping(&mut self, offset: u16, value: u32)
        requires
            old(self).wf(),
            offset <= 0xfffc,
        ensures
            final(self).wf(),
            final(self).core_slot == old(self).core_slot,
            final(self).irq_status == old(self).irq_status,
            final(self).mmio@ == window_store(old(self).mmio@, offset as int, value),
            window_word(final(self).mmio@, offset as int) == value,
            forall|o: int|
                0 <= o && o + 4 <= MMIO_WINDOW_LEN && (o + 4 <= offset || offset + 4 <= o)
                    ==> #[trigger] window_word(final(self).mmio@, o) == window_word(old(self).mmio@, o),
    {
        self.write_mmio_u32(offset, value);
        proof {
            assert forall|o: int|
                0 <= o && o + 4 <= MMIO_WINDOW_LEN && (o + 4 <= offset || offset + 4 <= o)
                    implies #[trigger] window_word(self.mmio@, o) == window_word(old(self).mmio@, o) by {
                lemma_store_keeps_other(old(self).mmio@, offset as int, value, o);
            }
        }
    }

    /// Refresh the restorable image from a snapshot taken at an IRQ boundary.
    pub fn refresh_restore_image_from_snapshot(image: &mut NpuCoreRestoreImage, regs: &NpuCoreRegisterSnapshot)
        ensures
            refreshed_from(*final(image), *old(image), *regs),
    {
        image.pc_operation_enable = 0;
        image.pc_base_address = regs.pc.base_address;
        image.pc_register_amounts = regs.pc.register_amounts;
        image.pc_interrupt_mask = regs.pc.interrupt_mask;
        image.pc_task_con = Self::sanitize_task_con(regs.pc.task_con);
        image.pc_task_dma_base_addr = regs.pc.task_dma_base_addr;
        image.cna_s_pointer = Self::sanitize_s_pointer(regs.cna.s_pointer);
        image.mac_s_pointer = Self::sanitize_s_pointer(regs.mac.s_pointer);
        image.dpu_s_pointer = Self::sanitize_s_pointer(regs.dpu.s_pointer);
        image.dpu_rdma_s_pointer = Self::sanitize_s_pointer(regs.dpu_rdma.s_pointer);
        image.ppu_s_pointer = Self::sanitize_s_pointer(regs.ppu.s_pointer);
        image.ppu_rdma_s_pointer = Self::sanitize_s_pointer(regs.ppu_rdma.s_pointer);
        image.cna_operation_enable = 0;
        image.mac_operation_enable = 0;
        image.dpu_operation_enable = 0;
        image.dpu_rdma_operation_enable = 0;
        image.ppu_operation_enable = 0;
        image.ppu_rdma_operation_enable = 0;
        image.global_operation_enable = 0;
        image.unsafe_snapshot = regs.pc.operation_enable != 0 || regs.cna.operation_enable != 0
            || regs.mac.operation_enable != 0 || regs.dpu.operation_enable != 0
            || regs.dpu_rdma.operation_enable != 0 || regs.ppu.operation_enable != 0
            || regs.ppu_rdma.operation_enable != 0 || regs.global.operation_enable != 0;
    }

    /// Write every task-window register of the image in order (or its poison).
    pub fn apply_task_shadow_writes(&mut self, image: &NpuCoreRestoreImage, poison: bool)
        requires
            old(self).wf(),
            shadow_in_window(*image),
        ensures
            final(self).wf(),
            final(self).core_slot == old(self).core_slot,
            final(self).irq_status == old(self).irq_status,
            final(self).mmio@ == apply_writes(old(self).mmio@, image.task_shadow_writes@, poison),
    {
        let mut i: usize = 0;
        while i < image.task_shadow_writes.len()
            invariant
                i <= image.task_shadow_writes@.len(),
                self.wf(),
                shadow_in_window(*image),
                self.core_slot == old(self).core_slot,
                self.irq_status == old(self).irq_status,
                self.mmio@ == apply_writes(old(self).mmio@, image.task_shadow_writes@.take(i as int), poison),
            decreases image.task_shadow_writes@.len() - i,
        {
            let write = image.task_shadow_writes[i];
            assert(image.task_shadow_writes@.take(i as int + 1).drop_last() =~= image.task_shadow_writes@.take(i as int));
            assert(image.task_shadow_writes@.take(i as int + 1).last() == write);
            let value = if poison {
                Self::poison_value(write.offset, write.value)
            } else {
                write.value
            };
            self.write_mmio_u32(write.offset, value);
            i = i + 1;
        }
        assert(image.task_shadow_writes@.take(image.task_shadow_writes@.len() as int) =~= image.task_shadow_writes@);
    }

    /// The value written for a restore scalar.
    fn scalar_value(offset: u16, value: u32, poison: bool) -> (r: u32)
        ensures
            r == scalar_written(offset, value, poison),
    {
        if poison {
            Self::poison_value(offset, value)
        } else {
            value
        }
    }

    /// Write the eleven restore scalars of the image (or their poison).
    #[verifier::rlimit(40)]
    fn write_restore_scalars(&mut self, image: &NpuCoreRestoreImage, poison: bool)
        requires
            old(self).wf(),
        ensures
            final(self).wf(),
            final(self).core_slot == old(self).core_slot,
            final(self).irq_status == old(self).irq_status,
            final(self).mmio@ == store_scalars(old(self).mmio@, *image, poison),
            scalars_written(final(self).mmio@, *image, poison),
            window_word(final(self).mmio@, 0x28) == window_word(old(self).mmio@, 0x28),
            window_word(final(self).mmio@, 0x2c) == window_word(old(self).mmio@, 0x2c),
    {
        self.write_reg_keeping(PC_BASE_ADDRESS_OFFSET, Self::scalar_value(PC_BASE_ADDRESS_OFFSET, image.pc_base_address, poison));
        self.write_reg_keeping(PC_REGISTER_AMOUNTS as u16, Self::scalar_value(PC_REGISTER_AMOUNTS as u16, image.pc_register_amounts, poison));
        self.write_reg_keeping(PC_INTERRUPT_MASK_OFFSET, Self::scalar_value(PC_INTERRUPT_MASK_OFFSET, image.pc_interrupt_mask, poison));
        self.write_reg_keeping(PC_TASK_CON_OFFSET, Self::scalar_value(PC_TASK_CON_OFFSET, image.pc_task_con, poison));
        self.write_reg_keeping(PC_TASK_DMA_BASE_ADDR_OFFSET, Self::scalar_value(PC_TASK_DMA_BASE_ADDR_OFFSET, image.pc_task_dma_base_addr, poison));
        self.write_reg_keeping(CNA_S_POINTER as u16, Self::scalar_value(CNA_S_POINTER as u16, image.cna_s_pointer, poison));
        self.write_reg_keeping(CORE_S_POINTER as u16, Self::scalar_value(CORE_S_POINTER as u16, image.mac_s_pointer, poison));
        self.write_reg_keeping(DPU_S_POINTER as u16, Self::scalar_value(DPU_S_POINTER as u16, image.dpu_s_pointer, poison));
        self.write_reg_keeping(DPU_RDMA_S_POINTER_OFFSET, Self::scalar_value(DPU_RDMA_S_POINTER_OFFSET, image.dpu_rdma_s_pointer, poison));
        self.write_reg_keeping(PPU_S_POINTER_OFFSET, Self::scalar_value(PPU_S_POINTER_OFFSET, image.ppu_s_pointer, poison));
        self.write_reg_keeping(PPU_RDMA_S_POINTER_OFFSET, Self::scalar_value(PPU_RDMA_S_POINTER_OFFSET, image.ppu_rdma_s_pointer, poison));
    }

    /// The value written for an operation enable.
    fn enable_value(value: u32, poison: bool) -> (r: u32)
        ensures
            r == (if poison { 0 } else { value }),
    {
        if poison {
            0
        } else {
            value
        }
    }

    /// Write the image's operation enables (zero for poison), keeping the
    /// restore scalars.
    #[verifier::rlimit(40)]
    fn write_operation_enables(&mut self, image: &NpuCoreRestoreImage, poison: bool)
        requires
            old(self).wf(),
        ensures
            final(self).wf(),
            final(self).core_slot == old(self).core_slot,
            final(self).irq_status == old(self).irq_status,
            final(self).mmio@ == store_enables(old(self).mmio@, *image, poison),
            enables_written(final(self).mmio@, *image, poison),
            scalars_written(old(self).mmio@, *image, poison) ==> scalars_written(final(self).mmio@, *image, poison),
            window_word(final(self).mmio@, 0x28) == window_word(old(self).mmio@, 0x28),
            window_word(final(self).mmio@, 0x2c) == window_word(old(self).mmio@, 0x2c),
    {
        self.write_reg_keeping(PC_OPERATION_ENABLE as u16, Self::enable_value(image.pc_operation_enable, poison));
        self.write_reg_keeping(CNA_OPERATION_ENABLE_OFFSET, Self::enable_value(image.cna_operation_enable, poison));
        self.write_reg_keeping(CORE_OPERATION_ENABLE_OFFSET, Self::enable_value(image.mac_operation_enable, poison));
        self.write_reg_keeping(DPU_OPERATION_ENABLE_OFFSET, Self::enable_value(image.dpu_operation_enable, poison));
        self.write_reg_keeping(DPU_RDMA_OPERATION_ENABLE_OFFSET, Self::enable_value(image.dpu_rdma_operation_enable, poison));
        self.write_reg_keeping(PPU_OPERATION_ENABLE_OFFSET, Self::enable_value(image.ppu_operation_enable, poison));
        self.write_reg_keeping(PPU_RDMA_OPERATION_ENABLE_OFFSET, Self::enable_value(image.ppu_rdma_operation_enable, poison));
        self.write_reg_keeping(GLOBAL_OPERATION_ENABLE_OFFSET, Self::enable_value(image.global_operation_enable, poison));
    }

    /// Overwrite the image's registers with the image itself: task-window
    /// writes first, then the scalars, then the operation enables.
    pub fn apply_restore_image(&mut self, image: &NpuCoreRestoreImage)
        requires
            old(self).wf(),
            restorable(*image),
        ensures
            final(self).wf(),
            final(self).core_slot == old(self).core_slot,
            final(self).irq_status == old(self).irq_status,
            final(self).mmio@ == restore_window(old(self).mmio@, *image, false),
            scalars_restored(final(self).mmio@, *image),
            window_word(final(self).mmio@, 0x28) == window_word(old(self).mmio@, 0x28),
            window_word(final(self).mmio@, 0x2c) == window_word(old(self).mmio@, 0x2c),
    {
        proof {
            lemma_restorable_in_window(*image);
            lemma_apply_writes_keeps(old(self).mmio@, image.task_shadow_writes@, false, 0x28);
            lemma_apply_writes_keeps(old(self).mmio@, image.task_shadow_writes@, false, 0x2c);
        }
        self.apply_task_shadow_writes(image, false);
        self.write_restore_scalars(image, false);
        self.write_operation_enables(image, false);
    }

    /// Overwrite the image's registers with deterministic poison: every
    /// scalar gets its poison and every operation enable zero.
    pub fn apply_poison_to_restore_image(&mut self, image: &NpuCoreRestoreImage)
        requires
            old(self).wf(),
            restorable(*image),
        ensures
            final(self).wf(),
            final(self).core_slot == old(self).core_slot,
            final(self).irq_status == old(self).irq_status,
            final(self).mmio@ == restore_window(old(self).mmio@, *image, true),
            scalars_written(final(self).mmio@, *image, true),
            enables_written(final(self).mmio@, *image, true),
            window_word(final(self).mmio@, 0x28) == window_word(old(self).mmio@, 0x28),
            window_word(final(self).mmio@, 0x2c) == window_word(old(self).mmio@, 0x2c),
    {
        proof {
            lemma_restorable_in_window(*image);
            lemma_apply_writes_keeps(old(self).mmio@, image.task_shadow_writes@, true, 0x28);
            lemma_apply_writes_keeps(old(self).mmio@, image.task_shadow_writes@, true, 0x2c);
        }
        self.apply_task_shadow_writes(image, true);
        self.write_restore_scalars(image, true);
        self.write_operation_enables(image, true);
    }

    /// `1 << bit` when the register at `offset` does not read back `expected`.
    pub fn verify_field(&self, bit: u64, offset: u16, expected: u32) -> (r: u64)
        requires
            self.wf(),
            offset <= 0xfffc,
            bit < 64,
        ensures
            r == bit_if(self.reg(offset) != expected, bit),
    {
        if self.read_mmio_u32(offset) != expected {
            1u64 << bit
        } else {
            0
        }
    }

    /// Read back the restore scalars; bit `i` of the result flags scalar `i`.
    /// Task-window registers are not checked: they need not read back after
    /// the completion boundary.
    pub fn verify_restore_image(&self, image: &NpuCoreRestoreImage) -> (mask: u64)
        requires
            self.wf(),
        ensures
            mask == spec_verify_mask(self.mmio@, *image),
    {
        let mut mismatch_mask: u64 = self.verify_field(0, PC_BASE_ADDRESS_OFFSET, image.pc_base_address);
        mismatch_mask = mismatch_mask | self.verify_field(1, PC_REGISTER_AMOUNTS as u16, image.pc_register_amounts);
        mismatch_mask = mismatch_mask | self.verify_field(2, PC_INTERRUPT_MASK_OFFSET, image.pc_interrupt_mask);
        mismatch_mask = mismatch_mask | self.verify_field(3, PC_TASK_CON_OFFSET, image.pc_task_con);
        mismatch_mask = mismatch_mask | self.verify_field(4, PC_TASK_DMA_BASE_ADDR_OFFSET, image.pc_task_dma_base_addr);
        mismatch_mask = mismatch_mask | self.verify_field(5, CNA_S_POINTER as u16, image.cna_s_pointer);
        mismatch_mask = mismatch_mask | self.verify_field(6, CORE_S_POINTER as u16, image.mac_s_pointer);
        mismatch_mask = mismatch_mask | self.verify_field(7, DPU_S_POINTER as u16, image.dpu_s_pointer);
        mismatch_mask = mismatch_mask | self.verify_field(8, DPU_RDMA_S_POINTER_OFFSET, image.dpu_rdma_s_pointer);
        mismatch_mask = mismatch_mask | self.verify_field(9, PPU_S_POINTER_OFFSET, image.ppu_s_pointer);
        mismatch_mask = mismatch_mask | self.verify_field(10, PPU_RDMA_S_POINTER_OFFSET, image.ppu_rdma_s_pointer);
        mismatch_mask = mismatch_mask | self.verify_field(11, PC_OPERATION_ENABLE as u16, 0);
        mismatch_mask = mismatch_mask | self.verify_field(12, CNA_OPERATION_ENABLE_OFFSET, 0);
        mismatch_mask = mismatch_mask | self.verify_field(13, CORE_OPERATION_ENABLE_OFFSET, 0);
        mismatch_mask = mismatch_mask | self.verify_field(14, DPU_OPERATION_ENABLE_OFFSET, 0);
        mismatch_mask = mismatch_mask | self.verify_field(15, DPU_RDMA_OPERATION_ENABLE_OFFSET, 0);
        mismatch_mask = mismatch_mask | self.verify_field(16, PPU_OPERATION_ENABLE_OFFSET, 0);
        mismatch_mask = mismatch_mask | self.verify_field(17, PPU_RDMA_OPERATION_ENABLE_OFFSET, 0);
        mismatch_mask = mismatch_mask | self.verify_field(18, GLOBAL_OPERATION_ENABLE_OFFSET, 0);
        mismatch_mask
    }

    /// The first task-window write whose register does not read back its
    /// value, as (offset, expected, read).
    pub fn first_task_shadow_mismatch(&self, image: &NpuCoreRestoreImage) -> (r: Option<(u16, u32, u32)>)
        requires
            self.wf(),
            shadow_in_window(*image),
        ensures
            match r {
                Some(t) => exists|k: int|
                    0 <= k < image.task_shadow_writes@.len()
                        && t == (image.task_shadow_writes@[k].offset, image.task_shadow_writes@[k].value, self.reg(image.task_shadow_writes@[k].offset))
                        && self.reg(image.task_shadow_writes@[k].offset) != image.task_shadow_writes@[k].value
                        && forall|j: int| 0 <= j < k ==> #[trigger] self.reg(image.task_shadow_writes@[j].offset) == image.task_shadow_writes@[j].value,
                None => forall|j: int| 0 <= j < image.task_shadow_writes@.len() ==> #[trigger] self.reg(image.task_shadow_writes@[j].offset) == image.task_shadow_writes@[j].value,
            },
    {
        let mut i: usize = 0;
        while i < image.task_shadow_writes.len()
            invariant
                i <= image.task_shadow_writes@.len(),
                self.wf(),
                shadow_in_window(*image),
                forall|j: int| 0 <= j < i ==> #[trigger] self.reg(image.task_shadow_writes@[j].offset) == image.task_shadow_writes@[j].value,
            decreases image.task_shadow_writes@.len() - i,
        {
            let write = image.task_shadow_writes[i];
            let got = self.read_mmio_u32(write.offset);
            if got != write.value {
                return Some((write.offset, write.value, got));
            }
            i = i + 1;
        }
        None
    }
}

} // verus!
