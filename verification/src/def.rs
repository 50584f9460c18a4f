//! Register offsets and PC opcodes used to build regcmd streams for the
//! NPU pipeline, and the packing of one register command.
use vstd::prelude::*;

verus! {

/// Direct convolution.
pub const DIRECT_CONVOLUTION: u8 = 0;

/// Npu cbuf bank size.
pub const NPU_CBUF_BANK_SIZE: u16 = 0x8000;

/// Npu cbuf banks.
pub const NPU_CBUF_BANKS: u16 = 0xc;

/// Operation enable.
pub const PC_OPERATION_ENABLE: u32 = 0x8;

/// PC base-address register.
pub const PC_BASE_ADDRESS: u32 = 0x10;

/// Register count per task.
pub const PC_REGISTER_AMOUNTS: u32 = 0x14;

/// Single-register-group pointer.
pub const CNA_S_POINTER: u32 = 0x1004;

/// Convolution control register 1.
pub const CNA_CONV_CON1: u32 = 0x100c;

/// Convolution control register 2.
pub const CNA_CONV_CON2: u32 = 0x1010;

/// Convolution control register 3.
pub const CNA_CONV_CON3: u32 = 0x1014;

/// Feature-data size control 0.
pub const CNA_DATA_SIZE0: u32 = 0x1020;

/// Feature-data size control 1.
pub const CNA_DATA_SIZE1: u32 = 0x1024;

/// Feature-data size control 2.
pub const CNA_DATA_SIZE2: u32 = 0x1028;

/// Feature-data size control 3.
pub const CNA_DATA_SIZE3: u32 = 0x102c;

/// Weight-size control 0.
pub const CNA_WEIGHT_SIZE0: u32 = 0x1030;

/// Weight-size control 1.
pub const CNA_WEIGHT_SIZE1: u32 = 0x1034;

/// Weight-size control 2.
pub const CNA_WEIGHT_SIZE2: u32 = 0x1038;

/// CBUF control register 0.
pub const CNA_CBUF_CON0: u32 = 0x1040;

/// CBUF control register 1.
pub const CNA_CBUF_CON1: u32 = 0x1044;

/// Input-conversion control 0.
pub const CNA_CVT_CON0: u32 = 0x104c;

/// Input-conversion control 1.
pub const CNA_CVT_CON1: u32 = 0x1050;

/// Input-conversion control 2.
pub const CNA_CVT_CON2: u32 = 0x1054;

/// Input-conversion control 3.
pub const CNA_CVT_CON3: u32 = 0x1058;

/// Input-conversion control 4.
pub const CNA_CVT_CON4: u32 = 0x105c;

/// Fully connected control 0.
pub const CNA_FC_CON0: u32 = 0x1060;

/// Fully connected control 1.
pub const CNA_FC_CON1: u32 = 0x1064;

/// Padding control 0.
pub const CNA_PAD_CON0: u32 = 0x1068;

/// Input feature-data base.
pub const CNA_FEATURE_DATA_ADDR: u32 = 0x1070;

/// Fully connected control 2.
pub const CNA_FC_CON2: u32 = 0x1074;

/// AXI control register 0.
pub const CNA_DMA_CON0: u32 = 0x1078;

/// AXI control register 1.
pub const CNA_DMA_CON1: u32 = 0x107c;

/// AXI control register 2.
pub const CNA_DMA_CON2: u32 = 0x1080;

/// FC data-size control 0.
pub const CNA_FC_DATA_SIZE0: u32 = 0x1084;

/// FC data-size control 1.
pub const CNA_FC_DATA_SIZE1: u32 = 0x1088;

/// Weight decompression control.
pub const CNA_DCOMP_CTRL: u32 = 0x1100;

/// Decompression register count.
pub const CNA_DCOMP_REGNUM: u32 = 0x1104;

/// Weight base address.
pub const CNA_DCOMP_ADDR0: u32 = 0x1110;

/// Decompression amount 0.
pub const CNA_DCOMP_AMOUNT: u32 = 0x1140;

/// Decompression amount 1.
pub const CNA_DCOMP_AMOUNT1: u32 = 0x1144;

/// Decompression amount 2.
pub const CNA_DCOMP_AMOUNT2: u32 = 0x1148;

/// Decompression amount 3.
pub const CNA_DCOMP_AMOUNT3: u32 = 0x114c;

/// Decompression amount 4.
pub const CNA_DCOMP_AMOUNT4: u32 = 0x1150;

/// Decompression amount 5.
pub const CNA_DCOMP_AMOUNT5: u32 = 0x1154;

/// Decompression amount 6.
pub const CNA_DCOMP_AMOUNT6: u32 = 0x1158;

/// Decompression amount 7.
pub const CNA_DCOMP_AMOUNT7: u32 = 0x115c;

/// Decompression amount 8.
pub const CNA_DCOMP_AMOUNT8: u32 = 0x1160;

/// Decompression amount 9.
pub const CNA_DCOMP_AMOUNT9: u32 = 0x1164;

/// Decompression amount 10.
pub const CNA_DCOMP_AMOUNT10: u32 = 0x1168;

/// Decompression amount 11.
pub const CNA_DCOMP_AMOUNT11: u32 = 0x116c;

/// Decompression amount 12.
pub const CNA_DCOMP_AMOUNT12: u32 = 0x1170;

/// Decompression amount 13.
pub const CNA_DCOMP_AMOUNT13: u32 = 0x1174;

/// Decompression amount 14.
pub const CNA_DCOMP_AMOUNT14: u32 = 0x1178;

/// Decompression amount 15.
pub const CNA_DCOMP_AMOUNT15: u32 = 0x117c;

/// Input-conversion control 5.
pub const CNA_CVT_CON5: u32 = 0x1180;

/// Padding control 1.
pub const CNA_PAD_CON1: u32 = 0x1184;

/// Single-register-group pointer.
pub const CORE_S_POINTER: u32 = 0x3004;

/// Miscellaneous configuration.
pub const CORE_MISC_CFG: u32 = 0x3010;

/// Output feature size register 0.
pub const CORE_DATAOUT_SIZE_0: u32 = 0x3014;

/// Output feature size register 1.
pub const CORE_DATAOUT_SIZE_1: u32 = 0x3018;

/// Shift-value register.
pub const CORE_CLIP_TRUNCATE: u32 = 0x301c;

/// Undocumented in the TRM so far.
pub const CORE_3030: u32 = 0x3030;

/// Single-register-group pointer.
pub const DPU_S_POINTER: u32 = 0x4004;

/// Feature-mode configuration.
pub const DPU_FEATURE_MODE_CFG: u32 = 0x400c;

/// Data-format configuration.
pub const DPU_DATA_FORMAT: u32 = 0x4010;

/// Offset-pending value.
pub const DPU_OFFSET_PEND: u32 = 0x4014;

/// Destination base address.
pub const DPU_DST_BASE_ADD: u32 = 0x4020;

/// Destination surface stride.
pub const DPU_DST_SURF_STRIDE: u32 = 0x4024;

/// Input cube width.
pub const DPU_DATA_CUBE_WIDTH: u32 = 0x4030;

/// Input cube height.
pub const DPU_DATA_CUBE_HEIGHT: u32 = 0x4034;

/// Input cube notch signal.
pub const DPU_DATA_CUBE_NOTCH_ADDR: u32 = 0x4038;

/// Input cube channel count.
pub const DPU_DATA_CUBE_CHANNEL: u32 = 0x403c;

/// Bias/scale configuration.
pub const DPU_BS_CFG: u32 = 0x4040;

/// BS ALU configuration.
pub const DPU_BS_ALU_CFG: u32 = 0x4044;

/// BS MUL configuration.
pub const DPU_BS_MUL_CFG: u32 = 0x4048;

/// ReLUX compare value.
pub const DPU_BS_RELUX_CMP_VALUE: u32 = 0x404c;

/// BS output-write configuration.
pub const DPU_BS_OW_CFG: u32 = 0x4050;

/// BS output-write operation.
pub const DPU_BS_OW_OP: u32 = 0x4054;

/// WDMA size register 0.
pub const DPU_WDMA_SIZE_0: u32 = 0x4058;

/// WDMA size register 1.
pub const DPU_WDMA_SIZE_1: u32 = 0x405c;

/// Batch-normalization configuration.
pub const DPU_BN_CFG: u32 = 0x4060;

/// BN ALU configuration.
pub const DPU_BN_ALU_CFG: u32 = 0x4064;

/// BN MUL configuration.
pub const DPU_BN_MUL_CFG: u32 = 0x4068;

/// ReLUX compare value.
pub const DPU_BN_RELUX_CMP_VALUE: u32 = 0x406c;

/// Elementwise configuration.
pub const DPU_EW_CFG: u32 = 0x4070;

/// EW input-conversion offset.
pub const DPU_EW_CVT_OFFSET_VALUE: u32 = 0x4074;

/// EW input-conversion scale.
pub const DPU_EW_CVT_SCALE_VALUE: u32 = 0x4078;

/// ReLUX compare value.
pub const DPU_EW_RELUX_CMP_VALUE: u32 = 0x407c;

/// Output-converter offset.
pub const DPU_OUT_CVT_OFFSET: u32 = 0x4080;

/// Output-converter scale.
pub const DPU_OUT_CVT_SCALE: u32 = 0x4084;

/// Output-converter shift.
pub const DPU_OUT_CVT_SHIFT: u32 = 0x4088;

/// EW operand value 0.
pub const DPU_EW_OP_VALUE_0: u32 = 0x4090;

/// EW operand value 1.
pub const DPU_EW_OP_VALUE_1: u32 = 0x4094;

/// EW operand value 2.
pub const DPU_EW_OP_VALUE_2: u32 = 0x4098;

/// EW operand value 3.
pub const DPU_EW_OP_VALUE_3: u32 = 0x409c;

/// EW operand value 4.
pub const DPU_EW_OP_VALUE_4: u32 = 0x40a0;

/// EW operand value 5.
pub const DPU_EW_OP_VALUE_5: u32 = 0x40a4;

/// EW operand value 6.
pub const DPU_EW_OP_VALUE_6: u32 = 0x40a8;

/// EW operand value 7.
pub const DPU_EW_OP_VALUE_7: u32 = 0x40ac;

/// Surface-adder value.
pub const DPU_SURFACE_ADD: u32 = 0x40c0;

/// Undocumented.
pub const DPU_40C4: u32 = 0x40c4;

/// LUT access address and type.
pub const DPU_LUT_ACCESS_CFG: u32 = 0x4100;

/// LUT access data.
pub const DPU_LUT_ACCESS_DATA: u32 = 0x4104;

/// LUT configuration.
pub const DPU_LUT_CFG: u32 = 0x4108;

/// LUT info register.
pub const DPU_LUT_INFO: u32 = 0x410c;

/// LE LUT start point.
pub const DPU_LUT_LE_START: u32 = 0x4110;

/// LE LUT end point.
pub const DPU_LUT_LE_END: u32 = 0x4114;

/// LO LUT start point.
pub const DPU_LUT_LO_START: u32 = 0x4118;

/// LO LUT end point.
pub const DPU_LUT_LO_END: u32 = 0x411c;

/// LE LUT slope scale.
pub const DPU_LUT_LE_SLOPE_SCALE: u32 = 0x4120;

/// LE LUT slope shift.
pub const DPU_LUT_LE_SLOPE_SHIFT: u32 = 0x4124;

/// LO LUT slope scale.
pub const DPU_LUT_LO_SLOPE_SCALE: u32 = 0x4128;

/// LO LUT slope shift.
pub const DPU_LUT_LO_SLOPE_SHIFT: u32 = 0x412c;

/// Block pc.
pub const BLOCK_PC: u32 = 0x100;

/// Block cna.
pub const BLOCK_CNA: u32 = 0x200;

/// Block core.
pub const BLOCK_CORE: u32 = 0x800;

/// Block dpu.
pub const BLOCK_DPU: u32 = 0x1000;

/// Block dpu rdma.
pub const BLOCK_DPU_RDMA: u32 = 0x2000;

/// Block ppu.
pub const BLOCK_PPU: u32 = 0x4000;

/// Block ppu rdma.
pub const BLOCK_PPU_RDMA: u32 = 0x8000;

/// Register op?.
pub const PC_OP_01: u32 = 0x1;

/// Sync op?.
pub const PC_OP_40: u32 = 0x40;

/// Enable block.
pub const PC_OP_ENABLE: u32 = 0x80;

/// PC register write.
pub const OP_REG_PC: u32 = 0x101;

/// CNA register write.
pub const OP_REG_CNA: u32 = 0x201;

/// Core register write.
pub const OP_REG_CORE: u32 = 0x801;

/// DPU register write.
pub const OP_REG_DPU: u32 = 0x1001;

/// Sync / barrier op.
pub const OP_40: u32 = 0x41;

/// Enable op.
pub const OP_ENABLE: u32 = 0x81;

/// No-op.
pub const OP_NONE: u32 = 0x0;

/// Enable the task.
pub const PC_ENABLE: u32 = 0x1;

/// CNA completion bit?.
pub const PC_ENABLE_CNA: u32 = 0x4;

/// DPU completion bit?.
pub const PC_ENABLE_DPU: u32 = 0x8;

/// PPU completion bit?.
pub const PC_ENABLE_PPU: u32 = 0x10;

/// The 64-bit regcmd word for writing `value` to register `reg` through
/// opcode `op`: opcode in bits 63..48, value in bits 47..16, register below.
pub open spec fn spec_npu_op(op: u32, value: u32, reg: u32) -> u64 {
    (((op as u64) & 0xFFFF) << 48u64) | (((value as u64) & 0xFFFF_FFFF) << 16u64) | (reg as u64)
}

/// Pack one PC register command into the 64-bit hardware format.
pub fn npu_op(op: u32, value: u32, reg: u32) -> (r: u64)
    ensures
        r == spec_npu_op(op, value, reg),
        reg <= 0xffff ==> (r >> 48u64) & 0xffff == (op & 0xffff) as u64,
        reg <= 0xffff ==> (r >> 16u64) & 0xffff_ffff == value as u64,
        reg <= 0xffff ==> r & 0xffff == reg as u64,
{
    let r = (((op as u64) & 0xFFFF) << 48u64) | (((value as u64) & 0xFFFF_FFFF) << 16u64) | (reg as u64);
    let o = op as u64;
    let v = value as u64;
    let g = reg as u64;
    assert(g <= 0xffff ==> ((((o & 0xFFFF) << 48u64) | ((v & 0xFFFF_FFFF) << 16u64) | g) >> 48u64) & 0xffff == o & 0xffff
        && ((((o & 0xFFFF) << 48u64) | ((v & 0xFFFF_FFFF) << 16u64) | g) >> 16u64) & 0xffff_ffff == v & 0xffff_ffff
        && (((o & 0xFFFF) << 48u64) | ((v & 0xFFFF_FFFF) << 16u64) | g) & 0xffff == g) by (bit_vector);
    assert(v <= 0xffff_ffff ==> v & 0xffff_ffff == v) by (bit_vector);
    assert((o & 0xffff) == (op & 0xffff) as u64) by (bit_vector)
        requires
            o == op as u64,
    ;
    r
}

} // verus!
