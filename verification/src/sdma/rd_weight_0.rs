//! Register `RD_WEIGHT_0`: read burst weights of the main clients.
use vstd::prelude::*;
use super::{field_of, with_field, read_field, read_byte_field, write_field, FieldReader, BitReader};

verus! {

/// Marker for the register; its reset value is zero.
#[derive(Clone, Copy, Debug)]
pub struct RdWeight0Spec;

impl RdWeight0Spec {
    /// Value of the register after reset.
    pub fn reset_value() -> (v: u32)
        ensures
            v == 0,
    {
        0
    }
}

/// Reader over one value of the register.
#[derive(Clone, Copy, Debug, PartialEq, Eq, Structural)]
pub struct R {
    pub bits: u32,
}

/// Writer that builds a value of the register field by field.
#[derive(Clone, Copy, Debug, PartialEq, Eq, Structural)]
pub struct W {
    pub bits: u32,
}

impl R {
    /// The whole register value.
    pub fn bits(&self) -> (b: u32)
        ensures
            b == self.bits,
    {
        self.bits
    }

    /// Bits 0:7 - feature read burst weight.
    pub fn rd_weight_feature(&self) -> (r: FieldReader)
        ensures
            r.bits == field_of(self.bits, 0, 255),
    {
        FieldReader { bits: read_byte_field(self.bits, 0, 255) }
    }

    /// Bits 8:15 - kernel read burst weight.
    pub fn rd_weight_kernel(&self) -> (r: FieldReader)
        ensures
            r.bits == field_of(self.bits, 8, 255),
    {
        FieldReader { bits: read_byte_field(self.bits, 8, 255) }
    }

    /// Bits 16:23 - DPU read burst weight.
    pub fn rd_weight_dpu(&self) -> (r: FieldReader)
        ensures
            r.bits == field_of(self.bits, 16, 255),
    {
        FieldReader { bits: read_byte_field(self.bits, 16, 255) }
    }

    /// Bits 24:31 - PPU read burst weight.
    pub fn rd_weight_pdp(&self) -> (r: FieldReader)
        ensures
            r.bits == field_of(self.bits, 24, 255),
    {
        FieldReader { bits: read_byte_field(self.bits, 24, 255) }
    }
}

impl W {
    /// A writer starting from the reset value.
    pub fn reset() -> (w: W)
        ensures
            w.bits == 0,
    {
        W { bits: 0 }
    }

    /// Set the whole register value.
    pub fn set_bits(&mut self, bits: u32)
        ensures
            final(self).bits == bits,
    {
        self.bits = bits;
    }

    /// Bits 0:7 - feature read burst weight: store `value`, cut to the field width.
    pub fn rd_weight_feature(&mut self, value: u8)
        ensures
            final(self).bits == with_field(old(self).bits, 0, 255, value as u32),
    {
        self.bits = write_field(self.bits, 0, 255, value as u32);
    }

    /// Bits 8:15 - kernel read burst weight: store `value`, cut to the field width.
    pub fn rd_weight_kernel(&mut self, value: u8)
        ensures
            final(self).bits == with_field(old(self).bits, 8, 255, value as u32),
    {
        self.bits = write_field(self.bits, 8, 255, value as u32);
    }

    /// Bits 16:23 - DPU read burst weight: store `value`, cut to the field width.
    pub fn rd_weight_dpu(&mut self, value: u8)
        ensures
            final(self).bits == with_field(old(self).bits, 16, 255, value as u32),
    {
        self.bits = write_field(self.bits, 16, 255, value as u32);
    }

    /// Bits 24:31 - PPU read burst weight: store `value`, cut to the field width.
    pub fn rd_weight_pdp(&mut self, value: u8)
        ensures
            final(self).bits == with_field(old(self).bits, 24, 255, value as u32),
    {
        self.bits = write_field(self.bits, 24, 255, value as u32);
    }
}

} // verus!
