//! Register `CFG_DMA_WSTRB`: DMA write strobe.
use vstd::prelude::*;
use super::{field_of, with_field, read_field, read_byte_field, write_field, FieldReader, BitReader};

verus! {

/// Marker for the register; its reset value is zero.
#[derive(Clone, Copy, Debug)]
pub struct CfgDmaWstrbSpec;

impl CfgDmaWstrbSpec {
    /// Value of the register after reset.
    pub fn reset_value() -> (v: u32)
        ensures
            v == 0,
    {
        0
    }
}

/// Reader over one value of the register.
#[derive(Clone, Copy, Debug, PartialEq, Eq, Structural)]
pub struct R {
    pub bits: u32,
}

/// Writer that builds a value of the register field by field.
#[derive(Clone, Copy, Debug, PartialEq, Eq, Structural)]
pub struct W {
    pub bits: u32,
}

impl R {
    /// The whole register value.
    pub fn bits(&self) -> (b: u32)
        ensures
            b == self.bits,
    {
        self.bits
    }

    /// Bits 0:7 - write strobe.
    pub fn wr_wstrb(&self) -> (r: FieldReader)
        ensures
            r.bits == field_of(self.bits, 0, 255),
    {
        FieldReader { bits: read_byte_field(self.bits, 0, 255) }
    }
}

impl W {
    /// A writer starting from the reset value.
    pub fn reset() -> (w: W)
        ensures
            w.bits == 0,
    {
        W { bits: 0 }
    }

    /// Set the whole register value.
    pub fn set_bits(&mut self, bits: u32)
        ensures
            final(self).bits == bits,
    {
        self.bits = bits;
    }

    /// Bits 0:7 - write strobe: store `value`, cut to the field width.
    pub fn wr_wstrb(&mut self, value: u8)
        ensures
            final(self).bits == with_field(old(self).bits, 0, 255, value as u32),
    {
        self.bits = write_field(self.bits, 0, 255, value as u32);
    }
}

} // verus!
