//! Register `CFG_DMA_RD_QOS`: read QoS level of each DMA client.
use vstd::prelude::*;
use super::{field_of, with_field, read_field, read_byte_field, write_field, FieldReader, BitReader};

verus! {

/// Marker for the register; its reset value is zero.
#[derive(Clone, Copy, Debug)]
pub struct CfgDmaRdQosSpec;

impl CfgDmaRdQosSpec {
    /// Value of the register after reset.
    pub fn reset_value() -> (v: u32)
        ensures
            v == 0,
    {
        0
    }
}

/// Reader over one value of the register.
#[derive(Clone, Copy, Debug, PartialEq, Eq, Structural)]
pub struct R {
    pub bits: u32,
}

/// Writer that builds a value of the register field by field.
#[derive(Clone, Copy, Debug, PartialEq, Eq, Structural)]
pub struct W {
    pub bits: u32,
}

impl R {
    /// The whole register value.
    pub fn bits(&self) -> (b: u32)
        ensures
            b == self.bits,
    {
        self.bits
    }

    /// Bits 0:1 - feature read QoS.
    pub fn rd_feature_qos(&self) -> (r: FieldReader)
        ensures
            r.bits == field_of(self.bits, 0, 3),
    {
        FieldReader { bits: read_byte_field(self.bits, 0, 3) }
    }

    /// Bits 2:3 - kernel read QoS.
    pub fn rd_kernel_qos(&self) -> (r: FieldReader)
        ensures
            r.bits == field_of(self.bits, 2, 3),
    {
        FieldReader { bits: read_byte_field(self.bits, 2, 3) }
    }

    /// Bits 4:5 - DPU read QoS.
    pub fn rd_dpu_qos(&self) -> (r: FieldReader)
        ensures
            r.bits == field_of(self.bits, 4, 3),
    {
        FieldReader { bits: read_byte_field(self.bits, 4, 3) }
    }

    /// Bits 6:7 - PPU read QoS.
    pub fn rd_ppu_qos(&self) -> (r: FieldReader)
        ensures
            r.bits == field_of(self.bits, 6, 3),
    {
        FieldReader { bits: read_byte_field(self.bits, 6, 3) }
    }

    /// Bits 8:9 - PC read QoS.
    pub fn rd_pc_qos(&self) -> (r: FieldReader)
        ensures
            r.bits == field_of(self.bits, 8, 3),
    {
        FieldReader { bits: read_byte_field(self.bits, 8, 3) }
    }
}

impl W {
    /// A writer starting from the reset value.
    pub fn reset() -> (w: W)
        ensures
            w.bits == 0,
    {
        W { bits: 0 }
    }

    /// Set the whole register value.
    pub fn set_bits(&mut self, bits: u32)
        ensures
            final(self).bits == bits,
    {
        self.bits = bits;
    }

    /// Bits 0:1 - feature read QoS: store `value`, cut to the field width.
    pub fn rd_feature_qos(&mut self, value: u8)
        ensures
            final(self).bits == with_field(old(self).bits, 0, 3, value as u32),
    {
        self.bits = write_field(self.bits, 0, 3, value as u32);
    }

    /// Bits 2:3 - kernel read QoS: store `value`, cut to the field width.
    pub fn rd_kernel_qos(&mut self, value: u8)
        ensures
            final(self).bits == with_field(old(self).bits, 2, 3, value as u32),
    {
        self.bits = write_field(self.bits, 2, 3, value as u32);
    }

    /// Bits 4:5 - DPU read QoS: store `value`, cut to the field width.
    pub fn rd_dpu_qos(&mut self, value: u8)
        ensures
            final(self).bits == with_field(old(self).bits, 4, 3, value as u32),
    {
        self.bits = write_field(self.bits, 4, 3, value as u32);
    }

    /// Bits 6:7 - PPU read QoS: store `value`, cut to the field width.
    pub fn rd_ppu_qos(&mut self, value: u8)
        ensures
            final(self).bits == with_field(old(self).bits, 6, 3, value as u32),
    {
        self.bits = write_field(self.bits, 6, 3, value as u32);
    }

    /// Bits 8:9 - PC read QoS: store `value`, cut to the field width.
    pub fn rd_pc_qos(&mut self, value: u8)
        ensures
            final(self).bits == with_field(old(self).bits, 8, 3, value as u32),
    {
        self.bits = write_field(self.bits, 8, 3, value as u32);
    }
}

} // verus!
