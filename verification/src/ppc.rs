//! Decoding of the PowerPC processor version register (PVR).

use vstd::prelude::*;

verus! {

/// A PowerPC CPU described by its processor version register.
#[derive(Debug)]
pub struct Cpu {
    /// The raw PVR word.
    pub pvr: u32,
    /// CPU version: the high half of the word.
    pub version: u16,
    /// CPU revision: the low half of the word.
    pub revision: u16,
}

impl Cpu {
    /// Decodes a raw PVR word, however it was read.
    pub fn new(pvr: u32) -> (r: Self)
        ensures
            r.pvr == pvr,
            r.version == (pvr >> 16) as u16,
            r.revision == (pvr & 0xFFFF) as u16,
    {
        proof {
            assert(pvr >> 16 <= 0xFFFF && pvr & 0xFFFF <= 0xFFFF) by (bit_vector);
        }
        Self { pvr, version: (pvr >> 16) as u16, revision: (pvr & 0xFFFF) as u16 }
    }
}

} // verus!
