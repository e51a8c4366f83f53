//! Vendor resolution: mapping the 12-character identifying string that the
//! vendor leaf spells out (or the division side channel, when the
//! identification instruction is absent) to a closed vendor identity.

use vstd::prelude::*;

verus! {

use crate::bounded::{fitted, hstr12_as_str, hstr12_from_str, str12_chars};
use crate::probe::{LEAF_0, Probe};
use crate::strutil::{nonzero_chars, push_le_bytes, push_nonzero_chars, spec_le_bytes, str_eq};

pub const VENDOR_AMD: &'static str = "AuthenticAMD";

pub const VENDOR_CENTAUR: &'static str = "CentaurHauls";

pub const VENDOR_CYRIX: &'static str = "CyrixInstead";

pub const VENDOR_DMP: &'static str = "Vortex86 SoC";

pub const VENDOR_HYGON: &'static str = "HygonGenuine";

pub const VENDOR_INTEL: &'static str = "GenuineIntel";

pub const VENDOR_NEXGEN: &'static str = "NexGenDriven";

pub const VENDOR_NSC: &'static str = "Geode by NSC";

pub const VENDOR_RISE: &'static str = "RiseRiseRise";

pub const VENDOR_SIS: &'static str = "SiS SiS SiS ";

pub const VENDOR_TRANSMETA: &'static str = "GenuineTMx86";

pub const VENDOR_UMC: &'static str = "UMC UMC UMC ";

pub const VENDOR_ZHAOXIN: &'static str = "  Shanghai  ";

/// The literal that every unrecognized value resolves to.
pub const UNK: &'static str = "Unknown";

/// The closed set of vendor identities the resolver knows.
#[derive(Debug, Clone, Copy, PartialEq, Eq, Structural)]
pub enum CpuBrand {
    AMD,
    Cyrix,
    DMP,
    Hygon,
    IDT,
    Intel,
    NationalSemiconductor,
    NexGen,
    Rise,
    SiS,
    Transmeta,
    Umc,
    Unknown,
    Via,
    Zhaoxin,
}

/// The vendor that an identifying string resolves to: one of the known
/// constants, and `Unknown` for every other string.  The shared Centaur
/// string resolves to `Unknown` here; the classifier re-derives its true
/// lineage from the family field instead.
pub open spec fn spec_resolve(s: Seq<char>) -> CpuBrand {
    if s == VENDOR_AMD@ {
        CpuBrand::AMD
    } else if s == VENDOR_CYRIX@ {
        CpuBrand::Cyrix
    } else if s == VENDOR_DMP@ {
        CpuBrand::DMP
    } else if s == VENDOR_HYGON@ {
        CpuBrand::Hygon
    } else if s == VENDOR_INTEL@ {
        CpuBrand::Intel
    } else if s == VENDOR_NEXGEN@ {
        CpuBrand::NexGen
    } else if s == VENDOR_NSC@ {
        CpuBrand::NationalSemiconductor
    } else if s == VENDOR_RISE@ {
        CpuBrand::Rise
    } else if s == VENDOR_SIS@ {
        CpuBrand::SiS
    } else if s == VENDOR_TRANSMETA@ {
        CpuBrand::Transmeta
    } else if s == VENDOR_UMC@ {
        CpuBrand::Umc
    } else {
        CpuBrand::Unknown
    }
}

/// Any identifying string equal to no known vendor constant resolves to the
/// `Unknown` vendor.
pub proof fn lemma_unknown_vendor_string(s: Seq<char>)
    requires
        s != VENDOR_AMD@,
        s != VENDOR_CYRIX@,
        s != VENDOR_DMP@,
        s != VENDOR_HYGON@,
        s != VENDOR_INTEL@,
        s != VENDOR_NEXGEN@,
        s != VENDOR_NSC@,
        s != VENDOR_RISE@,
        s != VENDOR_SIS@,
        s != VENDOR_TRANSMETA@,
        s != VENDOR_UMC@,
    ensures
        spec_resolve(s) == CpuBrand::Unknown,
{
}

/// The 12 bytes of the vendor leaf, in the order the string is spelled:
/// EBX, EDX, ECX, each word low byte first.
pub open spec fn spec_vendor_bytes(p: Probe) -> Seq<u8> {
    spec_le_bytes(p.spec_query(LEAF_0).ebx) + spec_le_bytes(p.spec_query(LEAF_0).edx)
        + spec_le_bytes(p.spec_query(LEAF_0).ecx)
}

/// The characters of the identifying string before capacity packing: the
/// synthesized legacy-vendor constant when the identification instruction is
/// absent but the side channel fired, else the nonzero bytes of the vendor
/// leaf.
pub open spec fn spec_vendor_chars(p: Probe) -> Seq<char> {
    if !p.has_cpuid && p.is_cyrix {
        VENDOR_CYRIX@
    } else {
        nonzero_chars(spec_vendor_bytes(p))
    }
}

/// What `vendor_str` stores in its 12-byte result.
pub open spec fn spec_vendor_str(p: Probe) -> Seq<char> {
    fitted(spec_vendor_chars(p), 12)
}

impl CpuBrand {
    /// Resolves the vendor of the probed processor: reads the identifying
    /// string and falls back to the legacy side channel when the string came
    /// back empty.
    pub fn detect(p: &Probe) -> (r: Self)
        ensures
            r == Self::spec_detect(*p),
    {
        let vendor = Self::vendor_str(p);
        let vs = hstr12_as_str(&vendor);
        if vs.is_empty() && p.is_cyrix {
            CpuBrand::from(VENDOR_CYRIX)
        } else {
            CpuBrand::from(vs)
        }
    }

    /// The identifying string that `detect` resolves: the stored vendor
    /// string, or the synthesized legacy constant when it is empty and the
    /// side channel fired.
    pub open spec fn spec_detect_chars(p: Probe) -> Seq<char> {
        if spec_vendor_str(p).len() == 0 && p.is_cyrix {
            VENDOR_CYRIX@
        } else {
            spec_vendor_str(p)
        }
    }

    /// The vendor that `detect` returns.
    pub open spec fn spec_detect(p: Probe) -> CpuBrand {
        spec_resolve(Self::spec_detect_chars(p))
    }

    /// Gets the CPU vendor ID string (e.g., "GenuineIntel", "AuthenticAMD")
    /// from the vendor leaf, skipping embedded zero bytes.
    pub fn vendor_str(p: &Probe) -> (r: heapless::String<12>)
        ensures
            str12_chars(r) == spec_vendor_str(*p),
    {
        if !p.has_cpuid && p.is_cyrix {
            return hstr12_from_str(VENDOR_CYRIX);
        }
        let res = p.query(LEAF_0);
        let mut bytes: Vec<u8> = Vec::new();
        push_le_bytes(&mut bytes, res.ebx);
        push_le_bytes(&mut bytes, res.edx);
        push_le_bytes(&mut bytes, res.ecx);
        proof {
            assert(bytes@ =~= spec_vendor_bytes(*p));
        }
        let mut s = String::new();
        push_nonzero_chars(&mut s, &bytes);
        hstr12_from_str(s.as_str())
    }

    /// The identifying string constant of this vendor.  The three lineages
    /// that share one string all report the shared constant.
    pub fn to_vendor_str(&self) -> (r: &'static str)
        ensures
            r@ == self.spec_vendor_constant(),
    {
        match self {
            CpuBrand::AMD => VENDOR_AMD,
            CpuBrand::Cyrix => VENDOR_CYRIX,
            CpuBrand::DMP => VENDOR_DMP,
            CpuBrand::Hygon => VENDOR_HYGON,
            CpuBrand::IDT | CpuBrand::Via | CpuBrand::Zhaoxin => VENDOR_CENTAUR,
            CpuBrand::Intel => VENDOR_INTEL,
            CpuBrand::NationalSemiconductor => VENDOR_NSC,
            CpuBrand::NexGen => VENDOR_NEXGEN,
            CpuBrand::Rise => VENDOR_RISE,
            CpuBrand::SiS => VENDOR_SIS,
            CpuBrand::Transmeta => VENDOR_TRANSMETA,
            CpuBrand::Umc => VENDOR_UMC,
            CpuBrand::Unknown => UNK,
        }
    }

    /// The identifying string constant that `to_vendor_str` returns.
    pub open spec fn spec_vendor_constant(self) -> Seq<char> {
        match self {
            CpuBrand::AMD => VENDOR_AMD@,
            CpuBrand::Cyrix => VENDOR_CYRIX@,
            CpuBrand::DMP => VENDOR_DMP@,
            CpuBrand::Hygon => VENDOR_HYGON@,
            CpuBrand::IDT | CpuBrand::Via | CpuBrand::Zhaoxin => VENDOR_CENTAUR@,
            CpuBrand::Intel => VENDOR_INTEL@,
            CpuBrand::NationalSemiconductor => VENDOR_NSC@,
            CpuBrand::NexGen => VENDOR_NEXGEN@,
            CpuBrand::Rise => VENDOR_RISE@,
            CpuBrand::SiS => VENDOR_SIS@,
            CpuBrand::Transmeta => VENDOR_TRANSMETA@,
            CpuBrand::Umc => VENDOR_UMC@,
            CpuBrand::Unknown => UNK@,
        }
    }

    /// The human-readable maker name of this vendor.
    pub fn to_brand_name(&self) -> (r: &'static str)
        ensures
            r@ == self.spec_brand_name(),
    {
        match self {
            CpuBrand::AMD => "AMD",
            CpuBrand::Cyrix => "Cyrix/IBM/ST/TI",
            CpuBrand::DMP => "DM&P",
            CpuBrand::Hygon => "Hygon",
            CpuBrand::IDT => "IDT",
            CpuBrand::Intel => "Intel",
            CpuBrand::NationalSemiconductor => "National Semiconductor",
            CpuBrand::NexGen => "NexGen",
            CpuBrand::Rise => "Rise",
            CpuBrand::SiS => "SiS",
            CpuBrand::Transmeta => "Transmeta",
            CpuBrand::Umc => "UMC",
            CpuBrand::Via => "Via",
            CpuBrand::Zhaoxin => "Zhaoxin",
            CpuBrand::Unknown => UNK,
        }
    }

    /// The maker name that `to_brand_name` returns.
    pub open spec fn spec_brand_name(self) -> Seq<char> {
        match self {
            CpuBrand::AMD => "AMD"@,
            CpuBrand::Cyrix => "Cyrix/IBM/ST/TI"@,
            CpuBrand::DMP => "DM&P"@,
            CpuBrand::Hygon => "Hygon"@,
            CpuBrand::IDT => "IDT"@,
            CpuBrand::Intel => "Intel"@,
            CpuBrand::NationalSemiconductor => "National Semiconductor"@,
            CpuBrand::NexGen => "NexGen"@,
            CpuBrand::Rise => "Rise"@,
            CpuBrand::SiS => "SiS"@,
            CpuBrand::Transmeta => "Transmeta"@,
            CpuBrand::Umc => "UMC"@,
            CpuBrand::Via => "Via"@,
            CpuBrand::Zhaoxin => "Zhaoxin"@,
            CpuBrand::Unknown => UNK@,
        }
    }
}

impl<'a> From<&'a str> for CpuBrand {
    /// Resolves an identifying string to its vendor.
    fn from(brand: &'a str) -> (r: Self) {
        if str_eq(brand, VENDOR_AMD) {
            CpuBrand::AMD
        } else if str_eq(brand, VENDOR_CYRIX) {
            CpuBrand::Cyrix
        } else if str_eq(brand, VENDOR_DMP) {
            CpuBrand::DMP
        } else if str_eq(brand, VENDOR_HYGON) {
            CpuBrand::Hygon
        } else if str_eq(brand, VENDOR_INTEL) {
            CpuBrand::Intel
        } else if str_eq(brand, VENDOR_NEXGEN) {
            CpuBrand::NexGen
        } else if str_eq(brand, VENDOR_NSC) {
            CpuBrand::NationalSemiconductor
        } else if str_eq(brand, VENDOR_RISE) {
            CpuBrand::Rise
        } else if str_eq(brand, VENDOR_SIS) {
            CpuBrand::SiS
        } else if str_eq(brand, VENDOR_TRANSMETA) {
            CpuBrand::Transmeta
        } else if str_eq(brand, VENDOR_UMC) {
            CpuBrand::Umc
        } else {
            CpuBrand::Unknown
        }
    }
}

impl<'a> vstd::std_specs::convert::FromSpecImpl<&'a str> for CpuBrand {
    open spec fn obeys_from_spec() -> bool {
        true
    }

    open spec fn from_spec(brand: &'a str) -> Self {
        spec_resolve(brand@)
    }
}

impl From<heapless::String<12>> for CpuBrand {
    /// Resolves a stored identifying string to its vendor.
    fn from(brand: heapless::String<12>) -> (r: Self) {
        Self::from(hstr12_as_str(&brand))
    }
}

impl vstd::std_specs::convert::FromSpecImpl<heapless::String<12>> for CpuBrand {
    open spec fn obeys_from_spec() -> bool {
        true
    }

    open spec fn from_spec(brand: heapless::String<12>) -> Self {
        spec_resolve(str12_chars(brand))
    }
}

} // verus!
