//! Fields of the card-specific data register.
use vstd::prelude::*;

verus! {

/// The fields of a CSD the host reads.
#[derive(Debug, Clone, Copy, PartialEq, Eq, Structural)]
pub struct CSDRegister {
    pub csd_structure: u8,
    pub spec_version: u8,
    pub device_size: u16,
    pub devoce_size_mult: u8,
    pub read_bl_len: u8,
}

/// The fields of the CSD held in four response words.
pub open spec fn spec_csd(w1: u32, w2: u32, w3: u32) -> CSDRegister {
    CSDRegister {
        csd_structure: (w3 >> 30u32) as u8,
        spec_version: ((w3 >> 26u32) & 0xf) as u8,
        device_size: (((w2 & 0x3ff) << 2u32) | ((w1 >> 30u32) & 0x3)) as u16,
        devoce_size_mult: ((w1 >> 15u32) & 0x7) as u8,
        read_bl_len: ((w2 >> 8u32) & 0xf) as u8,
    }
}

impl CSDRegister {
    /// Decode the CSD fields from its response words.
    pub fn new(csd: &[u32; 4]) -> (r: CSDRegister)
        ensures
            r == spec_csd(csd[1], csd[2], csd[3]),
    {
        let w1 = csd[1];
        let w2 = csd[2];
        let w3 = csd[3];
        CSDRegister {
            csd_structure: (w3 >> 30u32) as u8,
            spec_version: ((w3 >> 26u32) & 0xf) as u8,
            device_size: (((w2 & 0x3ff) << 2u32) | ((w1 >> 30u32) & 0x3)) as u16,
            devoce_size_mult: ((w1 >> 15u32) & 0x7) as u8,
            read_bl_len: ((w2 >> 8u32) & 0xf) as u8,
        }
    }
}

} // verus!
