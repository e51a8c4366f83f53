//! The record of what the identification hardware reported.
//!
//! A `Probe` holds the raw result words of every identification leaf the
//! resolution engine reads, together with the three flag-register facts that
//! can be learned without the identification instruction.  The engine does not
//! care whether the words were read directly or synthesized by a host-OS
//! fallback.

use vstd::prelude::*;

verus! {

/// Leaf of the maximum-basic-leaf / vendor-string query.
pub const LEAF_0: u32 = 0;
/// Leaf of the processor-info and feature-flag query.
pub const LEAF_1: u32 = 1;
/// Leaf of the cache-descriptor query.
pub const LEAF_2: u32 = 2;
/// Leaf of the extended-feature-flag query.
pub const LEAF_7: u32 = 7;

/// Extended leaf of the maximum-extended-leaf query.
pub const EXT_LEAF_0: u32 = 0x8000_0000;
/// Extended leaf of the extended-processor-info query.
pub const EXT_LEAF_1: u32 = 0x8000_0001;
/// First of the three extended leaves holding the brand/model string.
pub const EXT_LEAF_2: u32 = 0x8000_0002;
/// Second of the three extended leaves holding the brand/model string.
pub const EXT_LEAF_3: u32 = 0x8000_0003;
/// Third of the three extended leaves holding the brand/model string.
pub const EXT_LEAF_4: u32 = 0x8000_0004;

/// Non-standard leaf at which AMD hardware hides a diagnostic string.
pub const AMD_EGG_LEAF: u32 = 0x8FFF_FFFF;
/// Non-standard leaf at which Rise hardware hides a diagnostic string.
pub const RISE_EGG_LEAF: u32 = 0x5A4E;

/// The four result words returned by one query of the processor
/// identification instruction.
#[derive(Debug, Clone, Copy, PartialEq, Eq, Structural)]
pub struct CpuInfo {
    /// EAX register value
    pub eax: u32,
    /// EBX register value
    pub ebx: u32,
    /// ECX register value
    pub ecx: u32,
    /// EDX register value
    pub edx: u32,
}

impl CpuInfo {
    /// The all-zero result, which stands for "nothing reported".
    pub open spec fn spec_zero() -> CpuInfo {
        CpuInfo { eax: 0, ebx: 0, ecx: 0, edx: 0 }
    }

    /// Builds a result record from the four register words.
    pub fn new(eax: u32, ebx: u32, ecx: u32, edx: u32) -> (r: CpuInfo)
        ensures
            r == (CpuInfo { eax, ebx, ecx, edx }),
    {
        CpuInfo { eax, ebx, ecx, edx }
    }

    /// The all-zero result.
    pub fn zero() -> (r: CpuInfo)
        ensures
            r == Self::spec_zero(),
    {
        CpuInfo { eax: 0, ebx: 0, ecx: 0, edx: 0 }
    }
}

impl Default for CpuInfo {
    fn default() -> (r: Self)
        ensures
            r == Self::spec_zero(),
    {
        CpuInfo { eax: 0, ebx: 0, ecx: 0, edx: 0 }
    }
}

/// Everything the identification hardware reported, gathered once by the
/// platform layer and read many times by the resolution engine.
///
/// The three booleans are learned through flag-register toggling and the
/// division side channel, so they are meaningful even on hardware without the
/// identification instruction.  The leaf fields hold the raw words exactly as
/// the instruction returned them; [`Probe::query`] is the only reader and it
/// degrades to all-zero words when the instruction is unsupported.
#[derive(Debug, Clone, Copy, PartialEq, Eq, Structural)]
pub struct Probe {
    /// Whether the identification instruction is available (flag-toggle test).
    pub has_cpuid: bool,
    /// Whether the division side channel identified the legacy vendor.
    pub is_cyrix: bool,
    /// Whether the alignment-check flag could be toggled (486-class or newer).
    pub has_ac_flag: bool,
    /// Raw words of the vendor-string leaf.
    pub leaf0: CpuInfo,
    /// Raw words of the processor-info leaf.
    pub leaf1: CpuInfo,
    /// Raw words of the extended-feature leaf.
    pub leaf7: CpuInfo,
    /// Raw words of the maximum-extended-leaf query.
    pub ext0: CpuInfo,
    /// Raw words of the extended-processor-info leaf.
    pub ext1: CpuInfo,
    /// Raw words of the first brand-string leaf.
    pub ext2: CpuInfo,
    /// Raw words of the second brand-string leaf.
    pub ext3: CpuInfo,
    /// Raw words of the third brand-string leaf.
    pub ext4: CpuInfo,
    /// Raw words of the AMD diagnostic-string leaf.
    pub amd_egg: CpuInfo,
    /// Raw words of the Rise diagnostic-string leaf.
    pub rise_egg: CpuInfo,
}

impl Probe {
    /// What `query` returns: the recorded words of a known leaf, and the
    /// all-zero words when the instruction is unsupported or the leaf is one
    /// the engine never reads.
    pub open spec fn spec_query(self, leaf: u32) -> CpuInfo {
        if !self.has_cpuid {
            CpuInfo::spec_zero()
        } else if leaf == LEAF_0 {
            self.leaf0
        } else if leaf == LEAF_1 {
            self.leaf1
        } else if leaf == LEAF_7 {
            self.leaf7
        } else if leaf == EXT_LEAF_0 {
            self.ext0
        } else if leaf == EXT_LEAF_1 {
            self.ext1
        } else if leaf == EXT_LEAF_2 {
            self.ext2
        } else if leaf == EXT_LEAF_3 {
            self.ext3
        } else if leaf == EXT_LEAF_4 {
            self.ext4
        } else if leaf == AMD_EGG_LEAF {
            self.amd_egg
        } else if leaf == RISE_EGG_LEAF {
            self.rise_egg
        } else {
            CpuInfo::spec_zero()
        }
    }

    /// Returns the recorded result words for a leaf.  When the identification
    /// instruction is unsupported this returns all-zero words, which every
    /// downstream consumer reads as "absent".
    pub fn query(&self, leaf: u32) -> (r: CpuInfo)
        ensures
            r == self.spec_query(leaf),
    {
        if !self.has_cpuid {
            CpuInfo::zero()
        } else if leaf == LEAF_0 {
            self.leaf0
        } else if leaf == LEAF_1 {
            self.leaf1
        } else if leaf == LEAF_7 {
            self.leaf7
        } else if leaf == EXT_LEAF_0 {
            self.ext0
        } else if leaf == EXT_LEAF_1 {
            self.ext1
        } else if leaf == EXT_LEAF_2 {
            self.ext2
        } else if leaf == EXT_LEAF_3 {
            self.ext3
        } else if leaf == EXT_LEAF_4 {
            self.ext4
        } else if leaf == AMD_EGG_LEAF {
            self.amd_egg
        } else if leaf == RISE_EGG_LEAF {
            self.rise_egg
        } else {
            CpuInfo::zero()
        }
    }
}

/// Whether the one-time legacy enablement sequence must run before the first
/// query: only when the identification instruction is absent and the division
/// side channel identified the legacy vendor.  The sequence itself is
/// privileged port I/O that the platform layer performs; it is idempotent, so
/// running it again is harmless.
pub fn needs_legacy_enable(p: &Probe) -> (r: bool)
    ensures
        r == (!p.has_cpuid && p.is_cyrix),
{
    !p.has_cpuid && p.is_cyrix
}

impl Default for Probe {
    fn default() -> (r: Self)
        ensures
            !r.has_cpuid,
            !r.is_cyrix,
            !r.has_ac_flag,
            r.leaf0 == CpuInfo::spec_zero(),
            r.leaf1 == CpuInfo::spec_zero(),
            r.leaf7 == CpuInfo::spec_zero(),
            r.ext0 == CpuInfo::spec_zero(),
            r.ext1 == CpuInfo::spec_zero(),
            r.ext2 == CpuInfo::spec_zero(),
            r.ext3 == CpuInfo::spec_zero(),
            r.ext4 == CpuInfo::spec_zero(),
            r.amd_egg == CpuInfo::spec_zero(),
            r.rise_egg == CpuInfo::spec_zero(),
    {
        Probe {
            has_cpuid: false,
            is_cyrix: false,
            has_ac_flag: false,
            leaf0: CpuInfo::zero(),
            leaf1: CpuInfo::zero(),
            leaf7: CpuInfo::zero(),
            ext0: CpuInfo::zero(),
            ext1: CpuInfo::zero(),
            ext2: CpuInfo::zero(),
            ext3: CpuInfo::zero(),
            ext4: CpuInfo::zero(),
            amd_egg: CpuInfo::zero(),
            rise_egg: CpuInfo::zero(),
        }
    }
}


/// The result type of the platform's own identification intrinsic.
#[verifier::external_type_specification]
pub struct ExCpuidResult(core::arch::x86_64::CpuidResult);

impl From<core::arch::x86_64::CpuidResult> for CpuInfo {
    /// Carries the four words of an intrinsic result over.
    fn from(res: core::arch::x86_64::CpuidResult) -> (r: Self) {
        Self { eax: res.eax, ebx: res.ebx, ecx: res.ecx, edx: res.edx }
    }
}

impl vstd::std_specs::convert::FromSpecImpl<core::arch::x86_64::CpuidResult> for CpuInfo {
    open spec fn obeys_from_spec() -> bool {
        true
    }

    open spec fn from_spec(res: core::arch::x86_64::CpuidResult) -> Self {
        CpuInfo { eax: res.eax, ebx: res.ebx, ecx: res.ecx, edx: res.edx }
    }
}

} // verus!
