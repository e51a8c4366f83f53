//! Decoding of the processor-info word into a typed signature.

use vstd::prelude::*;

verus! {

use crate::bounded::{feat_names, fitted, hstr12_as_str, hstr64_as_str, hstr64_from_str, lemma_fitted_ascii, str64_chars};
use crate::brand::{CpuBrand, VENDOR_INTEL, spec_vendor_str};
use crate::fns::{FeatureList, get_brand_id, get_feature_list, has_cx8, has_mmx, is_386, is_486, logical_cores, max_extended_leaf, spec_brand_id, spec_feature_names, spec_has_cx8, spec_has_mmx, spec_logical_cores, spec_max_extended_leaf, vendor_str, lemma_no_support_no_features};
use crate::micro_arch::{ArchView, CpuArch, MicroArch, opt_str_view, spec_find};
use crate::probe::{AMD_EGG_LEAF, EXT_LEAF_2, EXT_LEAF_3, EXT_LEAF_4, LEAF_1, Probe, RISE_EGG_LEAF};
use crate::strutil::{nonzero_chars, push_le_bytes, push_nonzero_chars, spec_le_bytes, trim_chars, trim_str, str_eq};
use vstd::utf8::is_ascii_chars;

/// Stepping field: bits 0-3 of the processor-info word.
pub open spec fn spec_stepping(eax: u32) -> u32 {
    eax & 0xF
}

/// Model field: bits 4-7 of the processor-info word.
pub open spec fn spec_model(eax: u32) -> u32 {
    (eax >> 4) & 0xF
}

/// Family field: bits 8-11 of the processor-info word.
pub open spec fn spec_family(eax: u32) -> u32 {
    (eax >> 8) & 0xF
}

/// Processor-type field: bits 12-13 of the processor-info word.
pub open spec fn spec_processor_type(eax: u32) -> u32 {
    (eax >> 12) & 0x3
}

/// Extended-model field: bits 16-19 of the processor-info word.
pub open spec fn spec_extended_model(eax: u32) -> u32 {
    (eax >> 16) & 0xF
}

/// Extended-family field: bits 20-27 of the processor-info word.
pub open spec fn spec_extended_family(eax: u32) -> u32 {
    (eax >> 20) & 0xFF
}

/// Display family: the raw family, plus the extended family exactly when the
/// raw family holds its maximum 4-bit value.
pub open spec fn spec_display_family(eax: u32) -> u32 {
    if spec_family(eax) == 0xF {
        (spec_family(eax) + spec_extended_family(eax)) as u32
    } else {
        spec_family(eax)
    }
}

/// Display model: the raw model, plus the shifted extended model exactly when
/// the raw family is 6 or its maximum 4-bit value.
pub open spec fn spec_display_model(eax: u32) -> u32 {
    if spec_family(eax) == 0x6 || spec_family(eax) == 0xF {
        ((spec_extended_model(eax) << 4) + spec_model(eax)) as u32
    } else {
        spec_model(eax)
    }
}

/// CPU signature containing family, model, and stepping information.
#[derive(Debug, Copy, Clone, PartialEq, Eq, Structural)]
pub struct CpuSignature {
    /// Extended family value from the processor-info word
    pub extended_family: u32,
    /// Family value from the processor-info word
    pub family: u32,
    /// Extended model value from the processor-info word
    pub extended_model: u32,
    /// Model value from the processor-info word
    pub model: u32,
    /// Stepping value from the processor-info word
    pub stepping: u32,
    /// Display family (calculated from family and extended_family)
    pub display_family: u32,
    /// Display model (calculated from model and extended_model)
    pub display_model: u32,
    /// Whether the processor-type field marks an OverDrive part
    pub is_overdrive: bool,
}

impl CpuSignature {
    /// Every field slice is within the range its bit width allows, and the
    /// display fields follow the coalescing rule.
    pub open spec fn wf(self) -> bool {
        &&& self.stepping <= 0xF
        &&& self.model <= 0xF
        &&& self.family <= 0xF
        &&& self.extended_model <= 0xF
        &&& self.extended_family <= 0xFF
        &&& self.display_family == (if self.family == 0xF {
            (self.family + self.extended_family) as u32
        } else {
            self.family
        })
        &&& self.display_model == (if self.family == 0x6 || self.family == 0xF {
            ((self.extended_model << 4) + self.model) as u32
        } else {
            self.model
        })
    }

    /// The signature decoded from a processor-info word.
    pub open spec fn spec_decoded(eax: u32) -> CpuSignature {
        CpuSignature {
            extended_family: spec_extended_family(eax),
            family: spec_family(eax),
            extended_model: spec_extended_model(eax),
            model: spec_model(eax),
            stepping: spec_stepping(eax),
            display_family: spec_display_family(eax),
            display_model: spec_display_model(eax),
            is_overdrive: spec_processor_type(eax) == 1,
        }
    }

    /// Extracts the signature fields from the EAX word of the processor-info
    /// leaf.  Total over all 32-bit inputs, no side effects.
    pub fn detect(eax: u32) -> (s: Self)
        ensures
            s == Self::spec_decoded(eax),
            s.wf(),
    {
        proof {
            lemma_field_bounds(eax);
            assert(((eax >> 16) & 0xF) << 4 <= 0xF0 && (((eax >> 16) & 0xF) << 4) + ((eax >> 4)
                & 0xF) < 0x100) by (bit_vector);
        }
        let stepping = eax & 0xF;
        let model = (eax >> 4) & 0xF;
        let family = (eax >> 8) & 0xF;
        let extended_model = (eax >> 16) & 0xF;
        let extended_family = (eax >> 20) & 0xFF;

        let display_family = if family == 0xF {
            family + extended_family
        } else {
            family
        };

        let display_model = if family == 0x6 || family == 0xF {
            (extended_model << 4) + model
        } else {
            model
        };

        let is_overdrive = ((eax >> 12) & 0x3) == 1;

        Self {
            extended_model,
            extended_family,
            family,
            model,
            stepping,
            display_family,
            display_model,
            is_overdrive,
        }
    }

    /// Re-encodes the five extracted fields into their bit positions of the
    /// processor-info word.
    pub fn encode(&self) -> (r: u32)
        requires
            self.wf(),
        ensures
            r == (self.extended_family << 20) | (self.extended_model << 16) | (self.family << 8)
                | (self.model << 4) | self.stepping,
    {
        (self.extended_family << 20) | (self.extended_model << 16) | (self.family << 8)
            | (self.model << 4) | self.stepping
    }
}

impl Default for CpuSignature {
    /// The all-zero signature, which stands for "nothing decoded".
    fn default() -> (r: Self)
        ensures
            r == Self::spec_decoded(0),
            r.wf(),
    {
        proof {
            assert(0u32 & 0xF == 0 && (0u32 >> 4) & 0xF == 0 && (0u32 >> 8) & 0xF == 0 && (0u32
                >> 12) & 0x3 == 0 && (0u32 >> 16) & 0xF == 0 && (0u32 >> 20) & 0xFF == 0)
                by (bit_vector);
        }
        CpuSignature {
            extended_family: 0,
            family: 0,
            extended_model: 0,
            model: 0,
            stepping: 0,
            display_family: 0,
            display_model: 0,
            is_overdrive: false,
        }
    }
}

/// Each field slice of the processor-info word fits the range its bit width
/// allows.
pub proof fn lemma_field_bounds(eax: u32)
    ensures
        spec_stepping(eax) <= 0xF,
        spec_model(eax) <= 0xF,
        spec_family(eax) <= 0xF,
        spec_extended_model(eax) <= 0xF,
        spec_extended_family(eax) <= 0xFF,
        spec_display_family(eax) <= 0x10E,
        spec_display_model(eax) <= 0xFF,
{
    assert(eax & 0xF <= 0xF && (eax >> 4) & 0xF <= 0xF && (eax >> 8) & 0xF <= 0xF && (eax >> 16)
        & 0xF <= 0xF && (eax >> 20) & 0xFF <= 0xFF) by (bit_vector);
    assert(spec_extended_model(eax) <= 0xF ==> (spec_extended_model(eax) << 4) <= 0xF0 && (
    spec_extended_model(eax) << 4) + spec_model(eax) < 0x100) by (bit_vector);
}

/// Round trip: decoding any processor-info word whose bits all lie inside the
/// five signature fields, then re-encoding the extracted fields into the same
/// bit positions, reproduces the original word.
pub proof fn lemma_signature_round_trip(eax: u32)
    requires
        eax & 0x0FFF_0FFF == eax,
    ensures
        ({
            let s = CpuSignature::spec_decoded(eax);
            (s.extended_family << 20) | (s.extended_model << 16) | (s.family << 8) | (s.model << 4)
                | s.stepping == eax
        }),
{
    assert((((eax >> 20) & 0xFF) << 20) | (((eax >> 16) & 0xF) << 16) | (((eax >> 8) & 0xF) << 8)
        | (((eax >> 4) & 0xF) << 4) | (eax & 0xF) == eax) by (bit_vector)
        requires
            eax & 0x0FFF_0FFF == eax,
    ;
}

/// Display-signature rule: the maximum 4-bit family folds the extended family
/// into the display family, and any family other than 6 or that maximum shows
/// the raw model unchanged.
pub proof fn lemma_display_signature_rule(eax: u32)
    ensures
        spec_family(eax) == 0xF ==> spec_display_family(eax) == spec_family(eax)
            + spec_extended_family(eax),
        spec_family(eax) != 0x6 && spec_family(eax) != 0xF ==> spec_display_model(eax)
            == spec_model(eax),
{
    lemma_field_bounds(eax);
}

/// The bytes of the three brand-string leaves, in reading order.
pub open spec fn spec_brand_bytes(p: Probe) -> Seq<u8> {
    let w2 = p.spec_query(EXT_LEAF_2);
    let w3 = p.spec_query(EXT_LEAF_3);
    let w4 = p.spec_query(EXT_LEAF_4);
    spec_le_bytes(w2.eax) + spec_le_bytes(w2.ebx) + spec_le_bytes(w2.ecx) + spec_le_bytes(w2.edx)
        + spec_le_bytes(w3.eax) + spec_le_bytes(w3.ebx) + spec_le_bytes(w3.ecx) + spec_le_bytes(
        w3.edx,
    ) + spec_le_bytes(w4.eax) + spec_le_bytes(w4.ebx) + spec_le_bytes(w4.ecx) + spec_le_bytes(
        w4.edx,
    )
}

/// What `model_string` yields: the `Unknown` sentinel when the brand-string
/// leaves lie beyond the reported maximum, else the trimmed characters of the
/// nonzero brand bytes, packed into the fixed capacity.
pub open spec fn spec_model_chars(p: Probe) -> Seq<char> {
    if spec_max_extended_leaf(p) < EXT_LEAF_4 {
        "Unknown"@
    } else {
        fitted(trim_chars(nonzero_chars(spec_brand_bytes(p))), 64)
    }
}

/// The sentinel literal fits its fixed capacity unchanged.
pub proof fn lemma_unknown_fits()
    ensures
        fitted("Unknown"@, 64) == "Unknown"@,
{
    reveal_strlit("Unknown");
    assert forall|i: int| 0 <= i < "Unknown"@.len() implies '\0' <= #[trigger] "Unknown"@[i]
        <= '\u{7f}' by {
        if i == 0 {
        } else if i == 1 {
        } else if i == 2 {
        } else if i == 3 {
        } else if i == 4 {
        } else if i == 5 {
        } else {
        }
    }
    assert(is_ascii_chars("Unknown"@));
    lemma_fitted_ascii("Unknown"@, 64);
}

/// The non-standard leaf at which the probed vendor hides a diagnostic
/// string, and 1 for every vendor without one.
pub open spec fn spec_egg_addr(p: Probe) -> u32 {
    match CpuBrand::spec_detect(p) {
        CpuBrand::AMD => AMD_EGG_LEAF,
        CpuBrand::Rise => RISE_EGG_LEAF,
        _ => 1,
    }
}

/// The bytes of the diagnostic-string leaf, in reading order.
pub open spec fn spec_egg_bytes(p: Probe) -> Seq<u8> {
    let w = p.spec_query(spec_egg_addr(p));
    spec_le_bytes(w.eax) + spec_le_bytes(w.ebx) + spec_le_bytes(w.ecx) + spec_le_bytes(w.edx)
}

/// What `easter_egg` yields: the trimmed characters of the vendor's
/// diagnostic leaf, absent for vendors without one and when nothing but
/// whitespace and zero bytes came back.
pub open spec fn spec_easter_egg(p: Probe) -> Option<Seq<char>> {
    let chars = if spec_egg_addr(p) == 1 {
        Seq::<char>::empty()
    } else {
        trim_chars(nonzero_chars(spec_egg_bytes(p)))
    };
    if chars.len() > 0 {
        Some(fitted(chars, 64))
    } else {
        None
    }
}

/// The marketing name that the brand-index byte selects, where Intel's
/// brand-index table applies.
pub open spec fn spec_intel_brand_index(sig: CpuSignature, brand_id: u32) -> Option<Seq<char>> {
    if sig.family > 0xF || (sig.family == 0xF && sig.model >= 0x3) {
        None
    } else if brand_id == 0x01 || brand_id == 0x0A || brand_id == 0x14 {
        Some(INTEL_CELERON@)
    } else if brand_id == 0x02 || brand_id == 0x04 {
        Some("Intel® Pentium® III processor"@)
    } else if brand_id == 0x03 {
        if sig.family == 0x6 && sig.model == 0xB && sig.stepping == 0x1 {
            Some(INTEL_CELERON@)
        } else {
            Some("Intel® Pentium® III Xeon"@)
        }
    } else if brand_id == 0x06 {
        Some("Mobile Intel® Pentium® III processor-M"@)
    } else if brand_id == 0x07 || brand_id == 0x0F || brand_id == 0x13 || brand_id == 0x17 {
        Some("Mobile Intel® Celeron® processor"@)
    } else if brand_id == 0x08 || brand_id == 0x09 {
        Some("Intel® Pentium® 4 processor"@)
    } else if brand_id == 0x0B {
        if sig.family == 0xF && sig.model == 0x1 && sig.stepping == 0x3 {
            Some(INTEL_XEON_MP@)
        } else {
            Some(INTEL_XEON@)
        }
    } else if brand_id == 0x0C {
        Some(INTEL_XEON_MP@)
    } else if brand_id == 0x0E {
        if sig.family == 0xF && sig.model == 0x1 && sig.stepping == 0x3 {
            Some(INTEL_XEON@)
        } else {
            Some("Mobile Intel® Pentium® 4 processor-M"@)
        }
    } else if brand_id == 0x11 || brand_id == 0x15 {
        Some("Mobile Genuine Intel® processor"@)
    } else if brand_id == 0x12 {
        Some("Intel® Celeron® M processor"@)
    } else if brand_id == 0x16 {
        Some("Intel® Pentium® M processor"@)
    } else {
        None
    }
}

pub const INTEL_CELERON: &'static str = "Intel® Celeron® processor";

pub const INTEL_XEON: &'static str = "Intel® Xeon® processor";

pub const INTEL_XEON_MP: &'static str = "Intel® Xeon® processor MP";

/// The fallback model name chosen from the classified lineage, the raw
/// signature, and the flag-register facts.
pub open spec fn spec_model_fallback(a: ArchView, sig: CpuSignature, p: Probe) -> Seq<char> {
    match a.micro_arch {
        MicroArch::Am486 => if a.code_name == "Am486DX2"@ {
            "AMD 486 DX2"@
        } else if a.code_name == "Am486X2WB"@ {
            "AMD 486 DX2 with Write-Back Cache"@
        } else if a.code_name == "Am486DX4"@ {
            "AMD 486 DX4"@
        } else if a.code_name == "Am486DX4WB"@ {
            "AMD 486 DX4 with Write-Back Cache"@
        } else {
            "486 Class CPU"@
        },
        MicroArch::SSA5 => "AMD K5"@,
        MicroArch::K5 => "AMD K5"@,
        MicroArch::I486 => if a.code_name == "i80486DX"@ {
            "Intel 486 DX"@
        } else if a.code_name == "RapidCAD"@ {
            "Intel RapidCAD"@
        } else if a.code_name == "i80486DX-50"@ {
            "Intel 486 DX-50"@
        } else if a.code_name == "i80486SX"@ {
            "Intel 486 SX"@
        } else if a.code_name == "i80486DX2"@ {
            "Intel 486 DX2"@
        } else if a.code_name == "i80486SL"@ {
            "Intel 486 SL"@
        } else if a.code_name == "i80486SX2"@ {
            "Intel 486 SX2"@
        } else if a.code_name == "i80486DX2WB"@ {
            "Intel 486 DX2 with Write-Back Cache"@
        } else if a.code_name == "i80486DX4"@ {
            "Intel 486 DX4"@
        } else if a.code_name == "i80486DX4WB"@ {
            "Intel 486 DX4 with Write-Back Cache"@
        } else {
            "486 Class CPU"@
        },
        MicroArch::P5 => if spec_has_mmx(p) {
            "Intel Pentium with MMX"@
        } else {
            "Intel Pentium"@
        },
        MicroArch::P6Pro => "Intel Pentium Pro"@,
        MicroArch::P6PentiumII => "Intel Pentium II"@,
        MicroArch::P6PentiumIII => "Intel Pentium III"@,
        MicroArch::FiveX86 => "5x86"@,
        MicroArch::M1 => if spec_has_cx8(p) {
            "6x86L"@
        } else {
            "6x86"@
        },
        MicroArch::M2 => "6x86MX (MII)"@,
        MicroArch::U5S => "UMC Green CPU 486 U5-SX"@,
        MicroArch::U5D => "UMC Green CPU 486 U5-DX"@,
        _ => if sig == CpuSignature::spec_decoded(0) || !p.has_cpuid {
            if p.is_cyrix && p.has_ac_flag && !p.has_cpuid {
                "Cyrix/IBM 486"@
            } else if !p.has_ac_flag {
                "386 Class CPU"@
            } else {
                "486 Class CPU"@
            }
        } else {
            "Unknown"@
        },
    }
}

/// The display model name: the reported model string when one was
/// recognized, else Intel's brand-index table, else the fallback chosen from
/// the classified lineage.
pub open spec fn spec_display_model_name(
    a: ArchView,
    sig: CpuSignature,
    brand_id: u32,
    p: Probe,
) -> Seq<char> {
    if a.model != "Unknown"@ {
        a.model
    } else {
        let by_index = if a.vendor_string == VENDOR_INTEL@ {
            spec_intel_brand_index(sig, brand_id)
        } else {
            None
        };
        match by_index {
            Some(name) => name,
            None => spec_model_fallback(a, sig, p),
        }
    }
}

/// Represents a complete CPU profile with all information decoded from one
/// probe: classification, signature, capability flags, strings and counts.
/// Built once and never mutated.
#[derive(Debug)]
pub struct Cpu {
    /// CPU architecture and microarchitecture details
    pub arch: CpuArch,
    /// Diagnostic string hidden at a vendor-specific leaf, where one exists
    pub easter_egg: Option<heapless::String<64>>,
    /// The brand-index byte of the processor-info leaf
    pub brand_id: u32,
    /// Number of logical processors/threads
    pub threads: u32,
    /// CPU signature (family, model, stepping)
    pub signature: CpuSignature,
    /// Detected CPU features
    pub features: FeatureList,
}

impl Cpu {
    /// Composes the complete profile of the probed processor.
    pub fn new(p: &Probe) -> (r: Self)
        ensures
            r.arch@ == spec_find(
                spec_model_chars(*p),
                CpuSignature::spec_decoded(p.spec_query(LEAF_1).eax),
                spec_vendor_str(*p),
            ),
            match r.easter_egg {
                Some(h) => spec_easter_egg(*p) == Some(str64_chars(h)),
                None => spec_easter_egg(*p) is None,
            },
            r.brand_id == spec_brand_id(*p),
            r.threads == spec_logical_cores(*p),
            r.signature == CpuSignature::spec_decoded(p.spec_query(LEAF_1).eax),
            r.signature.wf(),
            feat_names(r.features) == spec_feature_names(*p),
    {
        let model = Self::model_string(p);
        let vendor = vendor_str(p);
        let signature = CpuSignature::detect(p.query(LEAF_1).eax);
        let arch = CpuArch::find(hstr64_as_str(&model), signature, hstr12_as_str(&vendor));
        Cpu {
            arch,
            easter_egg: Self::easter_egg(p),
            brand_id: get_brand_id(p),
            threads: logical_cores(p),
            signature,
            features: get_feature_list(p),
        }
    }

    /// Gets the CPU model string: the three brand-string leaves read as
    /// characters, zero bytes skipped, whitespace trimmed; the `Unknown`
    /// sentinel when those leaves are beyond the reported maximum.
    pub fn model_string(p: &Probe) -> (r: heapless::String<64>)
        ensures
            str64_chars(r) == spec_model_chars(*p),
    {
        if max_extended_leaf(p) < EXT_LEAF_4 {
            proof {
                lemma_unknown_fits();
            }
            return hstr64_from_str("Unknown");
        }
        let mut bytes: Vec<u8> = Vec::new();
        let w2 = p.query(EXT_LEAF_2);
        push_le_bytes(&mut bytes, w2.eax);
        push_le_bytes(&mut bytes, w2.ebx);
        push_le_bytes(&mut bytes, w2.ecx);
        push_le_bytes(&mut bytes, w2.edx);
        let w3 = p.query(EXT_LEAF_3);
        push_le_bytes(&mut bytes, w3.eax);
        push_le_bytes(&mut bytes, w3.ebx);
        push_le_bytes(&mut bytes, w3.ecx);
        push_le_bytes(&mut bytes, w3.edx);
        let w4 = p.query(EXT_LEAF_4);
        push_le_bytes(&mut bytes, w4.eax);
        push_le_bytes(&mut bytes, w4.ebx);
        push_le_bytes(&mut bytes, w4.ecx);
        push_le_bytes(&mut bytes, w4.edx);
        proof {
            assert(bytes@ =~= spec_brand_bytes(*p));
        }
        let mut s = String::new();
        push_nonzero_chars(&mut s, &bytes);
        let trimmed = trim_str(s.as_str());
        hstr64_from_str(trimmed)
    }

    /// Reads the diagnostic string hidden at a vendor-specific non-standard
    /// leaf, known for two vendors and absent for all others.
    pub fn easter_egg(p: &Probe) -> (r: Option<heapless::String<64>>)
        ensures
            match r {
                Some(h) => spec_easter_egg(*p) == Some(str64_chars(h)),
                None => spec_easter_egg(*p) is None,
            },
    {
        let addr: u32 = match CpuBrand::detect(p) {
            CpuBrand::AMD => AMD_EGG_LEAF,
            CpuBrand::Rise => RISE_EGG_LEAF,
            _ => 1,
        };
        let mut s = String::new();
        if addr != 1 {
            let w = p.query(addr);
            let mut bytes: Vec<u8> = Vec::new();
            push_le_bytes(&mut bytes, w.eax);
            push_le_bytes(&mut bytes, w.ebx);
            push_le_bytes(&mut bytes, w.ecx);
            push_le_bytes(&mut bytes, w.edx);
            proof {
                assert(bytes@ =~= spec_egg_bytes(*p));
            }
            push_nonzero_chars(&mut s, &bytes);
        }
        let trimmed = trim_str(s.as_str());
        if !trimmed.is_empty() {
            Some(hstr64_from_str(trimmed))
        } else {
            proof {
                if addr == 1 {
                    assert(trim_chars(Seq::<char>::empty()) =~= Seq::<char>::empty());
                }
            }
            None
        }
    }

    /// The marketing name that the brand-index byte selects, where Intel's
    /// brand-index table applies to this signature.
    pub fn intel_brand_index(&self) -> (r: Option<&'static str>)
        ensures
            opt_str_view(r) == spec_intel_brand_index(self.signature, self.brand_id),
    {
        let brand_id = self.brand_id;
        let (family, model, stepping) = (
            self.signature.family,
            self.signature.model,
            self.signature.stepping,
        );
        // The table stops applying past family 0xF, model 0x3.
        if family > 0xF || (family == 0xF && model >= 0x3) {
            return None;
        }
        if brand_id == 0x01 || brand_id == 0x0A || brand_id == 0x14 {
            Some(INTEL_CELERON)
        } else if brand_id == 0x02 || brand_id == 0x04 {
            Some("Intel® Pentium® III processor")
        } else if brand_id == 0x03 {
            if family == 0x6 && model == 0xB && stepping == 0x1 {
                Some(INTEL_CELERON)
            } else {
                Some("Intel® Pentium® III Xeon")
            }
        } else if brand_id == 0x06 {
            Some("Mobile Intel® Pentium® III processor-M")
        } else if brand_id == 0x07 || brand_id == 0x0F || brand_id == 0x13 || brand_id == 0x17 {
            Some("Mobile Intel® Celeron® processor")
        } else if brand_id == 0x08 || brand_id == 0x09 {
            Some("Intel® Pentium® 4 processor")
        } else if brand_id == 0x0B {
            if family == 0xF && model == 0x1 && stepping == 0x3 {
                Some(INTEL_XEON_MP)
            } else {
                Some(INTEL_XEON)
            }
        } else if brand_id == 0x0C {
            Some(INTEL_XEON_MP)
        } else if brand_id == 0x0E {
            if family == 0xF && model == 0x1 && stepping == 0x3 {
                Some(INTEL_XEON)
            } else {
                Some("Mobile Intel® Pentium® 4 processor-M")
            }
        } else if brand_id == 0x11 || brand_id == 0x15 {
            Some("Mobile Genuine Intel® processor")
        } else if brand_id == 0x12 {
            Some("Intel® Celeron® M processor")
        } else if brand_id == 0x16 {
            Some("Intel® Pentium® M processor")
        } else {
            None
        }
    }

    /// The model name to display: the reported model string when one was
    /// recognized, else Intel's brand-index name, else a class name chosen
    /// from the lineage, the signature and the flag-register facts.
    pub fn display_model_string<'a>(&'a self, p: &Probe) -> (r: &'a str)
        ensures
            r@ == spec_display_model_name(self.arch@, self.signature, self.brand_id, *p),
    {
        let model = hstr64_as_str(&self.arch.model);
        if !str_eq(model, "Unknown") {
            return model;
        }
        if str_eq(hstr64_as_str(&self.arch.vendor_string), VENDOR_INTEL) {
            if let Some(name) = self.intel_brand_index() {
                return name;
            }
        }
        match self.arch.micro_arch {
            MicroArch::Am486 => {
                if str_eq(self.arch.code_name, "Am486DX2") {
                    "AMD 486 DX2"
                } else if str_eq(self.arch.code_name, "Am486X2WB") {
                    "AMD 486 DX2 with Write-Back Cache"
                } else if str_eq(self.arch.code_name, "Am486DX4") {
                    "AMD 486 DX4"
                } else if str_eq(self.arch.code_name, "Am486DX4WB") {
                    "AMD 486 DX4 with Write-Back Cache"
                } else {
                    "486 Class CPU"
                }
            },
            MicroArch::SSA5 | MicroArch::K5 => "AMD K5",
            MicroArch::I486 => {
                if str_eq(self.arch.code_name, "i80486DX") {
                    "Intel 486 DX"
                } else if str_eq(self.arch.code_name, "RapidCAD") {
                    "Intel RapidCAD"
                } else if str_eq(self.arch.code_name, "i80486DX-50") {
                    "Intel 486 DX-50"
                } else if str_eq(self.arch.code_name, "i80486SX") {
                    "Intel 486 SX"
                } else if str_eq(self.arch.code_name, "i80486DX2") {
                    "Intel 486 DX2"
                } else if str_eq(self.arch.code_name, "i80486SL") {
                    "Intel 486 SL"
                } else if str_eq(self.arch.code_name, "i80486SX2") {
                    "Intel 486 SX2"
                } else if str_eq(self.arch.code_name, "i80486DX2WB") {
                    "Intel 486 DX2 with Write-Back Cache"
                } else if str_eq(self.arch.code_name, "i80486DX4") {
                    "Intel 486 DX4"
                } else if str_eq(self.arch.code_name, "i80486DX4WB") {
                    "Intel 486 DX4 with Write-Back Cache"
                } else {
                    "486 Class CPU"
                }
            },
            MicroArch::P5 => {
                if has_mmx(p) {
                    "Intel Pentium with MMX"
                } else {
                    "Intel Pentium"
                }
            },
            MicroArch::P6Pro => "Intel Pentium Pro",
            MicroArch::P6PentiumII => "Intel Pentium II",
            MicroArch::P6PentiumIII => "Intel Pentium III",
            MicroArch::FiveX86 => "5x86",
            MicroArch::M1 => {
                if has_cx8(p) {
                    "6x86L"
                } else {
                    "6x86"
                }
            },
            MicroArch::M2 => "6x86MX (MII)",
            MicroArch::U5S => "UMC Green CPU 486 U5-SX",
            MicroArch::U5D => "UMC Green CPU 486 U5-DX",
            _ => {
                let zero = CpuSignature::default();
                if self.signature == zero || !p.has_cpuid {
                    if p.is_cyrix && is_486(p) {
                        "Cyrix/IBM 486"
                    } else if is_386(p) {
                        "386 Class CPU"
                    } else {
                        "486 Class CPU"
                    }
                } else {
                    "Unknown"
                }
            },
        }
    }
}

/// Without the identification instruction and with the legacy side channel
/// silent, every capability flag is false and the model string is the
/// `Unknown` sentinel.
pub proof fn lemma_unsupported_probe(p: Probe)
    requires
        !p.has_cpuid,
        !p.is_cyrix,
    ensures
        spec_feature_names(p) == Seq::<Seq<char>>::empty(),
        spec_model_chars(p) == "Unknown"@,
{
    lemma_no_support_no_features(p);
}

} // verus!
