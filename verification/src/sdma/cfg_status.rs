//! Register `CFG_STATUS`: SDMA status.
use vstd::prelude::*;
use super::{field_of, with_field, read_field, read_byte_field, write_field, FieldReader, BitReader};

verus! {

/// Marker for the register; its reset value is zero.
#[derive(Clone, Copy, Debug)]
pub struct CfgStatusSpec;

impl CfgStatusSpec {
    /// Value of the register after reset.
    pub fn reset_value() -> (v: u32)
        ensures
            v == 0,
    {
        0
    }
}

/// Reader over one value of the register.
#[derive(Clone, Copy, Debug, PartialEq, Eq, Structural)]
pub struct R {
    pub bits: u32,
}

/// Writer that builds a value of the register field by field.
#[derive(Clone, Copy, Debug, PartialEq, Eq, Structural)]
pub struct W {
    pub bits: u32,
}

impl R {
    /// The whole register value.
    pub fn bits(&self) -> (b: u32)
        ensures
            b == self.bits,
    {
        self.bits
    }

    /// Bit 8 - idle state.
    pub fn idel(&self) -> (r: BitReader)
        ensures
            r.bit == (field_of(self.bits, 8, 1) != 0),
    {
        BitReader { bit: read_field(self.bits, 8, 1) != 0 }
    }
}

impl W {
    /// A writer starting from the reset value.
    pub fn reset() -> (w: W)
        ensures
            w.bits == 0,
    {
        W { bits: 0 }
    }

    /// Set the whole register value.
    pub fn set_bits(&mut self, bits: u32)
        ensures
            final(self).bits == bits,
    {
        self.bits = bits;
    }

    /// Bit 8 - idle state: set or clear the bit.
    pub fn idel(&mut self, value: bool)
        ensures
            final(self).bits == with_field(old(self).bits, 8, 1, if value { 1u32 } else { 0u32 }),
    {
        self.bits = write_field(self.bits, 8, 1, if value { 1 } else { 0 });
    }
}

} // verus!
