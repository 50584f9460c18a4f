//! Software-side descriptors of the CNA, MAC, PC and DPU register groups.
use vstd::prelude::*;

verus! {

/// Software-side CNA descriptor for one hardware task.
#[derive(Debug, Clone, Copy, Default)]
pub struct NpuCnaDesc {
    pub enable: u8,
    /// 0x100C - convolution mode, direct or Winograd
    pub conv_mode: u8,
    /// 0x100C - input precision, such as Int8 or FP16
    pub in_precision: u8,
    /// 0x100C - processing precision
    pub proc_precision: u8,
    /// 0x1010 - number of kernel groups
    pub kernel_groups: u8,
    /// 0x1010 - feature-data grain size
    pub feature_grains: u16,
    /// 0x1014 - vertical stride
    pub conv_y_stride: u8,
    /// 0x1014 - horizontal stride
    pub conv_x_stride: u8,
    /// 0x1020 - input feature width
    pub datain_width: u16,
    /// 0x1020 - input feature height
    pub datain_height: u16,
    /// 0x1024 - input feature channels
    pub datain_channel: u16,
    /// 0x1028 - output feature width
    pub dataout_width: u16,
    /// 0x102C - output atomic count, usually W x H
    pub dataout_atomics: u32,
    /// 0x1030 - total weight size in bytes
    pub weight_bytes: u32,
    /// 0x1034 - weight bytes per output channel
    pub weight_bytes_per_kernel: u32,
    /// 0x1038 - kernel width
    pub weight_width: u8,
    /// 0x1038 - kernel height
    pub weight_height: u8,
    /// 0x1038 - number of output channels
    pub weight_kernels: u16,
    /// 0x1040 - CBUF bank allocation for weights
    pub weight_bank: u8,
    /// 0x1040 - CBUF bank allocation for features
    pub data_bank: u8,
    /// 0x1044 - number of feature entries in CBUF
    pub data_entries: u16,
    /// 0x104C - signed or unsigned input flag
    pub data_sign: u8,
    /// 0x104C - conversion type
    pub cvt_type: u8,
    /// 0x104C - bypass input conversion
    pub cvt_bypass: u8,
    /// 0x1050 - scale for channel group 0
    pub cvt_scale0: u16,
    /// 0x1054 - scale for channel group 1
    pub cvt_scale1: u16,
    /// 0x1058 - scale for channel group 2
    pub cvt_scale2: u16,
    /// 0x105C - scale for channel group 3
    pub cvt_scale3: u16,
    /// 0x1060 - fully connected skip enable
    pub fc_skip_en: u8,
    /// 0x1064 - start offset in input data
    pub data_offset: u16,
    /// 0x1068 - left zero-padding
    pub pad_left: u8,
    /// 0x1068 - top zero-padding
    pub pad_top: u8,
    /// 0x1070 - DMA address of input features
    pub feature_base_addr: u32,
    /// 0x1074 - starting offset for weights
    pub weight_offset: u16,
    /// 0x1078 - AXI burst length for weight DMA
    pub weight_burst_len: u8,
    /// 0x1078 - AXI burst length for feature DMA
    pub data_burst_len: u8,
    /// 0x107C - bytes between consecutive lines
    pub line_stride: u32,
    /// 0x1080 - bytes between channel surfaces
    pub surf_stride: i32,
    /// 0x1084 - DMA transfer width
    pub dma_width: u16,
    /// 0x1084 - DMA transfer height
    pub dma_height: u16,
    /// 0x1088 - DMA transfer channels
    pub dma_channel: u16,
    /// 0x1110 - DMA address of compressed weights
    pub decompress_addr0: u32,
    pub dataout_height: u16,
}

/// MAC core descriptor.
///
/// The MAC unit performs the actual multiply-accumulate work. Its descriptor is
/// fairly small because the CNA block handles most of the input routing.
#[derive(Debug, Clone, Copy, Default)]
pub struct NpuCoreDesc {
    /// 0x3010 - compute precision
    pub proc_precision: u8,
    /// 0x3010 - quantize/dequantize enable
    pub qd_en: u8,
    /// 0x3014 - output height, stored zero-based
    pub dataout_height: u16,
    /// 0x3014 - output width, stored zero-based
    pub dataout_width: u16,
    /// 0x3018 - output channels, stored zero-based
    pub dataout_channel: u16,
}

/// PC descriptor, rarely filled by hand.
///
/// In most flows the register layer programs the PC block directly through
/// `submit_pc()` rather than materializing this structure.
#[derive(Debug, Clone, Copy, Default)]
pub struct NpuPcDesc {
    /// 0x0010 - regcmd buffer base address
    pub pc_source_addr: u32,
    /// 0x0014 - regcmd words per task
    pub pc_data_amount: u32,
}

/// Raw 64-bit register-command array for one CNA+MAC task.
#[derive(Debug, Clone, Copy)]
pub struct NpuCnaCoreTask {
    pub ops: [u64; 112],
}

/// Software-side description of DPU register values for one task.
#[derive(Debug, Clone, Copy, Default)]
pub struct NpuDpuDesc {
    /// 0x400C - AXI burst length for output DMA
    pub burst_len: u8,
    /// 0x400C - must match the CNA `conv_mode`
    pub conv_mode: u8,
    /// 0x400C - `0x2` means "write to memory"
    pub output_mode: u8,
    /// 0x400C - `0`: from MAC, `1`: from RDMA
    pub flying_mode: u8,
    /// 0x4010 - output data precision
    pub out_precision: u8,
    /// 0x4010 - input precision from MAC
    pub in_precision: u8,
    /// 0x4010 - processing precision
    pub proc_precision: u8,
    /// 0x4020 - DMA address of the output tensor
    pub dst_base_addr: u32,
    /// 0x4024 - bytes between output channel surfaces
    pub dst_surf_stride: u32,
    /// 0x4030 - output width, zero-based
    pub width: u16,
    /// 0x4034 - output height, zero-based
    pub height: u16,
    /// 0x403C - output channel count, zero-based
    pub channel: u16,
    /// 0x4040 - bypass the bias/scale block
    pub bs_bypass: u8,
    /// 0x4040 - bypass the BS ALU sub-unit
    pub bs_alu_bypass: u8,
    /// 0x4040 - bypass the BS multiplier
    pub bs_mul_bypass: u8,
    /// 0x4040 - bypass BS ReLU activation
    pub bs_relu_bypass: u8,
    /// 0x4050 - bypass output-data reordering
    pub od_bypass: u8,
    /// 0x4050 - OW size exponent 2
    pub size_e_2: u8,
    /// 0x4050 - OW size exponent 1
    pub size_e_1: u8,
    /// 0x4050 - OW size exponent 0
    pub size_e_0: u8,
    /// 0x4058 - WDMA output channels, zero-based
    pub channel_wdma: u16,
    /// 0x405C - WDMA output height, zero-based
    pub height_wdma: u16,
    /// 0x405C - WDMA output width, zero-based
    pub width_wdma: u16,
    /// 0x4060 - bypass BN ReLU
    pub bn_relu_bypass: u8,
    /// 0x4060 - bypass BN multiplier
    pub bn_mul_bypass: u8,
    /// 0x4060 - bypass BN ALU
    pub bn_alu_bypass: u8,
    /// 0x4060 - bypass the full batch-norm block
    pub bn_bypass: u8,
    /// 0x4070 - bypass the full elementwise block
    pub ew_bypass: u8,
    /// 0x4070 - bypass the elementwise op
    pub ew_op_bypass: u8,
    /// 0x4070 - bypass the elementwise LUT
    pub ew_lut_bypass: u8,
    /// 0x4070 - bypass elementwise operand conversion
    pub ew_op_cvt_bypass: u8,
    /// 0x4070 - bypass elementwise ReLU
    pub ew_relu_bypass: u8,
    /// 0x4084 - enable FP32-to-FP16 output conversion
    pub fp32tofp16_en: u8,
    /// 0x4084 - output-conversion scale factor
    pub out_cvt_scale: u16,
    /// 0x40C0 - surface-adder value
    pub surf_add: u32,
}

/// An operation that writes its register-command sequence.
pub trait OperationTrait {
    /// Write the operation's register-command sequence into `regcmd`.
    fn fill_regcmd(&self, regcmd: &mut Vec<u64>);
}

} // verus!
