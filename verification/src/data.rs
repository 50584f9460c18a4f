//! Chip-variant data and static configuration of the NPU.
use vstd::prelude::*;

verus! {

/// Supported RKNPU hardware variants.
#[derive(Debug, Clone, Copy, PartialEq, Eq, Hash, Structural)]
pub enum RknpuType {
    /// Rockchip RK3588 NPU.
    Rk3588,
}

/// Top-level static configuration for one RKNPU instance.
#[derive(Debug, Clone, Copy, PartialEq, Eq, Structural)]
pub struct RknpuConfig {
    /// Chip variant selecting the hardware-specific data.
    pub rknpu_type: RknpuType,
}

/// Register offsets of the hardware read and write byte counters.
#[derive(Debug, Clone, Copy, Default, PartialEq, Eq, Structural)]
pub struct RknpuAmountData {
    /// Register offset that clears all counters.
    pub offset_clr_all: u16,
    /// Register offset of the "data write" counter.
    pub offset_dt_wr: u16,
    /// Register offset of the "data read" counter.
    pub offset_dt_rd: u16,
    /// Register offset of the "weight read" counter.
    pub offset_wt_rd: u16,
}

/// Interrupt descriptor of one NPU core.
#[derive(Debug, Clone, Copy)]
pub struct NpuIrq {
    /// IRQ name, matching the device-tree entry.
    pub name: &'static str,
}

/// GIC interrupt number of a device-tree interrupt specifier `cells`: the
/// first cell is the interrupt type, the second its number within the type;
/// shared peripheral interrupts (type 0) are numbered from 32, private ones
/// (type 1) from 16.
pub fn fdt_irq_to_gic_num(cells: &[u32]) -> (n: usize)
    requires
        cells@.len() >= 2,
        cells@[0] == 0 || cells@[0] == 1,
        cells@[1] + 32 <= usize::MAX,
    ensures
        n == cells@[1] + (if cells@[0] == 0 { 32int } else { 16int }),
{
    let irq_type = cells[0];
    let irq_num = cells[1] as usize;
    if irq_type == 0 {
        irq_num + 32
    } else {
        irq_num + 16
    }
}

/// A mask with the lowest `n` bits set (all bits from 64 on).
pub open spec fn spec_dma_bit_mask(n: u32) -> u64 {
    if n >= 64 {
        0xffff_ffff_ffff_ffffu64
    } else {
        ((1u64 << n) - 1) as u64
    }
}

/// Return a mask with the lowest `n` bits set.
pub fn dma_bit_mask(n: u32) -> (m: u64)
    ensures
        m == spec_dma_bit_mask(n),
{
    if n >= 64 {
        u64::MAX
    } else {
        assert(1u64 << n >= 1) by (bit_vector)
            requires
                n < 64,
        ;
        (1u64 << n) - 1u64
    }
}

/// Chip-variant data used when programming the PC block.
#[derive(Debug, Clone)]
pub struct RknpuData {
    /// MMIO base address of the bandwidth-priority register block.
    pub bw_priority_addr: u32,
    /// Length in bytes of the bandwidth-priority register block.
    pub bw_priority_length: u32,
    /// Maximum DMA address visible to the NPU.
    pub dma_mask: u64,
    /// Scale factor of the PC `REGISTER_AMOUNTS` field.
    pub pc_data_amount_scale: u32,
    /// Width in bits of the task-count field of `TASK_CON`.
    pub pc_task_number_bits: u32,
    /// Mask of the task-count field.
    pub pc_task_number_mask: u32,
    /// Offset of the PC task status register.
    pub pc_task_status_offset: u32,
    /// Non-zero when the PC block exposes legacy DMA control registers.
    pub pc_dma_ctrl: u32,
    /// Physical address of local on-chip SRAM, or zero if absent.
    pub nbuf_phyaddr: u64,
    /// Size in bytes of the local SRAM buffer.
    pub nbuf_size: u64,
    /// Maximum number of tasks the PC block accepts in one batch.
    pub max_submit_number: u64,
    /// Bitmask of available hardware cores.
    pub core_mask: u32,
    /// IRQ descriptors, one per visible core.
    pub irqs: Vec<NpuIrq>,
    /// Top-level traffic counter offsets, if supported.
    pub amount_top: Option<RknpuAmountData>,
    /// Per-core traffic counter offsets, if supported.
    pub amount_core: Option<RknpuAmountData>,
}

impl RknpuData {
    /// Data the PC block can be programmed with: a non-zero amount scale, a
    /// task-count field inside the word, and at most sixteen IRQ lines.
    pub open spec fn wf(&self) -> bool {
        &&& self.pc_data_amount_scale > 0
        &&& self.pc_task_number_bits < 32
        &&& self.irqs@.len() <= 16
    }

    /// The RK3588 description.
    pub open spec fn is_rk3588(&self) -> bool {
        &&& self.bw_priority_addr == 0
        &&& self.bw_priority_length == 0
        &&& self.dma_mask == spec_dma_bit_mask(40)
        &&& self.pc_data_amount_scale == 2
        &&& self.pc_task_number_bits == 12
        &&& self.pc_task_number_mask == 0xfff
        &&& self.pc_task_status_offset == 0x3c
        &&& self.pc_dma_ctrl == 0
        &&& self.nbuf_phyaddr == 0
        &&& self.nbuf_size == 0
        &&& self.max_submit_number == 4095
        &&& self.core_mask == 0x7
        &&& self.irqs@.len() == 3
        &&& self.irqs@[0].name@ == "npu0_irq"@
        &&& self.irqs@[1].name@ == "npu1_irq"@
        &&& self.irqs@[2].name@ == "npu2_irq"@
        &&& self.amount_top is None
        &&& self.amount_core is None
    }

    /// Construct the variant data of the selected NPU type.
    pub fn new(ty: RknpuType) -> (d: RknpuData)
        ensures
            d.is_rk3588(),
            d.wf(),
    {
        match ty {
            RknpuType::Rk3588 => Self::new_3588(),
        }
    }

    /// The hard-coded RK3588 description: three cores, 40-bit DMA, up to
    /// 4095 tasks per batch.
    pub fn new_3588() -> (d: RknpuData)
        ensures
            d.is_rk3588(),
            d.wf(),
    {
        let mut irqs: Vec<NpuIrq> = Vec::new();
        irqs.push(NpuIrq { name: "npu0_irq" });
        irqs.push(NpuIrq { name: "npu1_irq" });
        irqs.push(NpuIrq { name: "npu2_irq" });
        RknpuData {
            bw_priority_addr: 0x0,
            bw_priority_length: 0x0,
            dma_mask: dma_bit_mask(40),
            pc_data_amount_scale: 2,
            pc_task_number_bits: 12,
            pc_task_number_mask: 0xfff,
            pc_task_status_offset: 0x3c,
            pc_dma_ctrl: 0,
            nbuf_phyaddr: 0,
            nbuf_size: 0,
            max_submit_number: 4095,
            core_mask: 0x7,
            irqs,
            amount_top: None,
            amount_core: None,
        }
    }
}

} // verus!
