//! Decoding of the ARM main ID register (MIDR): implementer, variant,
//! architecture, part and revision fields, and the vendor an implementer
//! code stands for.

use vstd::prelude::*;

verus! {

/// Bits of the implementer field.
pub const IMPLEMENTER_MASK: usize = 0xFF000000;

/// Bits of the variant field.
pub const VARIANT_MASK: usize = 0x00F00000;

/// Bits of the architecture field.
pub const ARCHITECTURE_MASK: usize = 0x000F0000;

/// Bits of the part-number field.
pub const PART_MASK: usize = 0x0000FFF0;

/// Bits of the revision field.
pub const REVISION_MASK: usize = 0x0000000F;

/// Offset of the implementer field.
pub const IMPLEMENTER_OFFSET: usize = 24;

/// Offset of the variant field.
pub const VARIANT_OFFSET: usize = 20;

/// Offset of the architecture field.
pub const ARCHITECTURE_OFFSET: usize = 16;

/// Offset of the part-number field.
pub const PART_OFFSET: usize = 4;

/// Offset of the revision field.
pub const REVISION_OFFSET: usize = 0;

/// The vendors an implementer code is known to stand for.
#[derive(Debug, Clone, Copy, PartialEq, Eq, Structural)]
pub enum Vendor {
    ARM,
    Apple,
    Broadcom,
    Mediatek,
    Rockchip,
    Qualcomm,
    Unknown,
}

impl Vendor {
    /// The display name that `name` returns.
    pub open spec fn spec_name(self) -> Seq<char> {
        match self {
            Vendor::ARM => "ARM"@,
            Vendor::Apple => "Apple"@,
            Vendor::Broadcom => "Broadcom"@,
            Vendor::Mediatek => "Mediatek"@,
            Vendor::Rockchip => "Rockchip"@,
            Vendor::Qualcomm => "Qualcomm"@,
            Vendor::Unknown => "Unknown"@,
        }
    }

    /// The display name of this vendor.
    pub fn name(&self) -> (r: &'static str)
        ensures
            r@ == self.spec_name(),
    {
        match self {
            Vendor::ARM => "ARM",
            Vendor::Apple => "Apple",
            Vendor::Broadcom => "Broadcom",
            Vendor::Mediatek => "Mediatek",
            Vendor::Rockchip => "Rockchip",
            Vendor::Qualcomm => "Qualcomm",
            Vendor::Unknown => "Unknown",
        }
    }

    /// The vendor an implementer code resolves to: a known code, and
    /// `Unknown` for every other value.
    pub open spec fn spec_from_code(v: usize) -> Vendor {
        if v == 0x41 {
            Vendor::ARM
        } else if v == 0xB3 {
            Vendor::Apple
        } else {
            Vendor::Unknown
        }
    }
}

impl From<usize> for Vendor {
    /// Resolves an implementer code to its vendor.
    fn from(v: usize) -> (r: Self) {
        if v == 0x41 {
            Vendor::ARM
        } else if v == 0xB3 {
            Vendor::Apple
        } else {
            Vendor::Unknown
        }
    }
}

impl vstd::std_specs::convert::FromSpecImpl<usize> for Vendor {
    open spec fn obeys_from_spec() -> bool {
        true
    }

    open spec fn from_spec(v: usize) -> Self {
        Vendor::spec_from_code(v)
    }
}

/// The part-number field of a MIDR word.
pub open spec fn spec_midr_part(midr: usize) -> usize {
    (midr & PART_MASK) >> PART_OFFSET
}

/// The architecture field of a MIDR word.
pub open spec fn spec_midr_architecture(midr: usize) -> usize {
    (midr & ARCHITECTURE_MASK) >> ARCHITECTURE_OFFSET
}

/// The revision field of a MIDR word.
pub open spec fn spec_midr_revision(midr: usize) -> usize {
    midr & REVISION_MASK
}

/// The variant field of a MIDR word.
pub open spec fn spec_midr_variant(midr: usize) -> usize {
    (midr & VARIANT_MASK) >> VARIANT_OFFSET
}

/// The implementer field of a MIDR word.
pub open spec fn spec_midr_implementer(midr: usize) -> usize {
    (midr & IMPLEMENTER_MASK) >> IMPLEMENTER_OFFSET
}

/// Extracts the part-number field.
pub fn midr_get_part(midr: usize) -> (r: usize)
    ensures
        r == spec_midr_part(midr),
{
    (midr & PART_MASK) >> PART_OFFSET
}

/// Extracts the architecture field.
pub fn midr_get_architecture(midr: usize) -> (r: usize)
    ensures
        r == spec_midr_architecture(midr),
{
    (midr & ARCHITECTURE_MASK) >> ARCHITECTURE_OFFSET
}

/// Extracts the revision field.
pub fn midr_get_revision(midr: usize) -> (r: usize)
    ensures
        r == spec_midr_revision(midr),
{
    midr & REVISION_MASK
}

/// Extracts the variant field.
pub fn midr_get_variant(midr: usize) -> (r: usize)
    ensures
        r == spec_midr_variant(midr),
{
    (midr & VARIANT_MASK) >> VARIANT_OFFSET
}

/// Extracts the implementer field.
pub fn midr_get_implementer(midr: usize) -> (r: usize)
    ensures
        r == spec_midr_implementer(midr),
{
    (midr & IMPLEMENTER_MASK) >> IMPLEMENTER_OFFSET
}

/// The main ID register, split into its five fields.
#[derive(Debug)]
pub struct Midr {
    /// Implementer code.
    pub implementer: usize,
    /// Variant field.
    pub variant: usize,
    /// Architecture field.
    pub architecture: usize,
    /// Part number.
    pub part: usize,
    /// Revision field.
    pub revision: usize,
}

impl Midr {
    /// Splits a raw MIDR word into its fields.
    pub fn new(midr: usize) -> (r: Midr)
        ensures
            r.implementer == spec_midr_implementer(midr),
            r.variant == spec_midr_variant(midr),
            r.architecture == spec_midr_architecture(midr),
            r.part == spec_midr_part(midr),
            r.revision == spec_midr_revision(midr),
    {
        Midr {
            implementer: midr_get_implementer(midr),
            variant: midr_get_variant(midr),
            architecture: midr_get_architecture(midr),
            part: midr_get_part(midr),
            revision: midr_get_revision(midr),
        }
    }
}

impl Default for Midr {
    /// The all-zero register value, split.
    fn default() -> (r: Self)
        ensures
            r.implementer == 0,
            r.variant == 0,
            r.architecture == 0,
            r.part == 0,
            r.revision == 0,
    {
        Midr { implementer: 0, variant: 0, architecture: 0, part: 0, revision: 0 }
    }
}

/// An ARM CPU described by its main ID register.
#[derive(Debug)]
pub struct Cpu {
    /// The raw MIDR word.
    pub raw_midr: usize,
    /// The word split into its fields.
    pub midr: Midr,
    /// Implementer code, narrowed to its 8 bits.
    pub implementer: u8,
    /// Variant field, narrowed to its 4 bits.
    pub variant: u8,
    /// Part number, narrowed to its 12 bits.
    pub part_number: u16,
    /// Revision field, narrowed to its 4 bits.
    pub revision: u8,
}

impl Cpu {
    /// Decodes a raw MIDR word, however it was read or synthesized.
    pub fn new(midr: usize) -> (r: Self)
        ensures
            r.raw_midr == midr,
            r.implementer == ((midr >> 24) & 0xFF) as u8,
            r.variant == ((midr >> 20) & 0xF) as u8,
            r.part_number == ((midr >> 4) & 0xFFF) as u16,
            r.revision == (midr & 0xF) as u8,
            r.midr.implementer == spec_midr_implementer(midr),
            r.midr.variant == spec_midr_variant(midr),
            r.midr.architecture == spec_midr_architecture(midr),
            r.midr.part == spec_midr_part(midr),
            r.midr.revision == spec_midr_revision(midr),
    {
        proof {
            assert((midr >> 24) & 0xFF <= 0xFF && (midr >> 20) & 0xF <= 0xF && (midr >> 4) & 0xFFF
                <= 0xFFF && midr & 0xF <= 0xF) by (bit_vector);
        }
        Self {
            raw_midr: midr,
            midr: Midr::new(midr),
            implementer: ((midr >> 24) & 0xFF) as u8,
            variant: ((midr >> 20) & 0xF) as u8,
            part_number: ((midr >> 4) & 0xFFF) as u16,
            revision: (midr & 0xF) as u8,
        }
    }
}

} // verus!
