//! Bit-field access to the SDMA block registers of the NPU.
//!
//! Each register module holds a reader `R` over the 32-bit register value and a
//! writer `W` that updates one field at a time, leaving every other bit alone.
use vstd::prelude::*;

pub mod cfg_dma_rd_qos;
pub mod cfg_dma_wstrb;
pub mod cfg_status;
pub mod rd_weight_0;
pub mod rd_weight_1;

verus! {

/// Value of the `width`-bit field starting at bit `offset` of `bits`.
pub open spec fn field_of(bits: u32, offset: u32, mask: u32) -> u32 {
    (bits >> offset) & mask
}

/// `bits` with the field at `offset` (selected by `mask`) replaced by `value & mask`.
pub open spec fn with_field(bits: u32, offset: u32, mask: u32, value: u32) -> u32 {
    (bits & !(mask << offset)) | ((value & mask) << offset)
}

/// A multi-bit field value read out of a register.
#[derive(Clone, Copy, Debug, PartialEq, Eq, Structural)]
pub struct FieldReader {
    pub bits: u8,
}

impl FieldReader {
    /// The raw field value.
    pub fn bits(&self) -> (b: u8)
        ensures
            b == self.bits,
    {
        self.bits
    }
}

/// A single-bit field value read out of a register.
#[derive(Clone, Copy, Debug, PartialEq, Eq, Structural)]
pub struct BitReader {
    pub bit: bool,
}

impl BitReader {
    /// The raw bit.
    pub fn bit(&self) -> (b: bool)
        ensures
            b == self.bit,
    {
        self.bit
    }

    /// True when the bit is set.
    pub fn bit_is_set(&self) -> (b: bool)
        ensures
            b == self.bit,
    {
        self.bit
    }
}

/// Read a field: shift and mask.
pub fn read_field(bits: u32, offset: u32, mask: u32) -> (v: u32)
    requires
        offset < 32,
    ensures
        v == field_of(bits, offset, mask),
{
    (bits >> offset) & mask
}

/// Read a field of at most eight bits as a byte.
pub fn read_byte_field(bits: u32, offset: u32, mask: u32) -> (v: u8)
    requires
        offset < 32,
        mask <= 0xff,
    ensures
        v == field_of(bits, offset, mask),
{
    let v = (bits >> offset) & mask;
    assert(((bits >> offset) & mask) <= mask) by (bit_vector);
    v as u8
}

/// Replace a field, keeping every other bit.
pub fn write_field(bits: u32, offset: u32, mask: u32, value: u32) -> (r: u32)
    requires
        offset < 32,
    ensures
        r == with_field(bits, offset, mask, value),
{
    (bits & !(mask << offset)) | ((value & mask) << offset)
}

/// Writing a field and reading it back yields the written value cut to the
/// field width, when the field fits in the register.
pub proof fn lemma_field_read_after_write(bits: u32, offset: u32, mask: u32, value: u32)
    requires
        offset < 32,
        mask == 1 || mask == 3 || mask == 0xff,
        offset + (if mask == 1 { 1u32 } else if mask == 3 { 2u32 } else { 8u32 }) <= 32,
    ensures
        field_of(with_field(bits, offset, mask, value), offset, mask) == value & mask,
{
    assert(field_of(with_field(bits, offset, mask, value), offset, mask) == value & mask)
        by (bit_vector)
        requires
            offset < 32,
            mask == 1 || mask == 3 || mask == 0xff,
            offset + (if mask == 1 { 1u32 } else if mask == 3 { 2u32 } else { 8u32 }) <= 32,
    ;
}

/// Writing one field leaves a disjoint field unchanged.
pub proof fn lemma_field_write_keeps_other(
    bits: u32,
    offset: u32,
    mask: u32,
    value: u32,
    other_offset: u32,
    other_mask: u32,
)
    requires
        offset < 32,
        other_offset < 32,
        (mask << offset) & (other_mask << other_offset) == 0,
        other_mask == 1 || other_mask == 3 || other_mask == 0xff,
        other_offset + (if other_mask == 1 { 1u32 } else if other_mask == 3 { 2u32 } else { 8u32 }) <= 32,
    ensures
        field_of(with_field(bits, offset, mask, value), other_offset, other_mask) == field_of(
            bits,
            other_offset,
            other_mask,
        ),
{
    assert(field_of(with_field(bits, offset, mask, value), other_offset, other_mask) == field_of(
        bits,
        other_offset,
        other_mask,
    )) by (bit_vector)
        requires
            offset < 32,
            other_offset < 32,
            (mask << offset) & (other_mask << other_offset) == 0,
            other_mask == 1 || other_mask == 3 || other_mask == 0xff,
            other_offset + (if other_mask == 1 { 1u32 } else if other_mask == 3 { 2u32 } else { 8u32 }) <= 32,
    ;
}

} // verus!
