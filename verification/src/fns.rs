//! Leaf helpers and leaf-gated capability flags.
//!
//! Every capability is defined by one (leaf, register, bit) triple.  Before a
//! bit is tested, the leaf must lie within the maximum that the processor
//! reports for its range (basic or extended); an out-of-range leaf means the
//! capability is absent, whatever a raw query of that leaf would return.

use vstd::prelude::*;

verus! {

use crate::bounded::{feat_names, feat_vec_from, str_views};
use crate::brand::CpuBrand;
use crate::probe::{EXT_LEAF_0, EXT_LEAF_1, LEAF_0, LEAF_1, LEAF_7, Probe};

/// The ordered list of feature names that the probed processor supports.
pub type FeatureList = heapless::Vec<&'static str, 64>;

/// Returns true if the CPU is a 386-class processor: the alignment-check
/// flag cannot be toggled.
pub fn is_386(p: &Probe) -> (r: bool)
    ensures
        r == !p.has_ac_flag,
{
    !p.has_ac_flag
}

/// Returns true if the CPU is a 486-class processor without identification
/// instruction support.
pub fn is_486(p: &Probe) -> (r: bool)
    ensures
        r == (p.has_ac_flag && !p.has_cpuid),
{
    p.has_ac_flag && !p.has_cpuid
}

/// The maximum basic leaf the processor reports.
pub open spec fn spec_max_leaf(p: Probe) -> u32 {
    p.spec_query(LEAF_0).eax
}

/// Returns the maximum basic leaf supported.
pub fn max_leaf(p: &Probe) -> (r: u32)
    ensures
        r == spec_max_leaf(*p),
{
    p.query(LEAF_0).eax
}

/// The maximum extended leaf the processor reports.
pub open spec fn spec_max_extended_leaf(p: Probe) -> u32 {
    p.spec_query(EXT_LEAF_0).eax
}

/// Returns the maximum extended leaf supported.
pub fn max_extended_leaf(p: &Probe) -> (r: u32)
    ensures
        r == spec_max_extended_leaf(*p),
{
    p.query(EXT_LEAF_0).eax
}

/// Gets the CPU vendor ID string (e.g., "GenuineIntel", "AuthenticAMD").
/// Returns the 12-character vendor string of the vendor leaf.
pub fn vendor_str(p: &Probe) -> (r: heapless::String<12>)
    ensures
        crate::bounded::str12_chars(r) == crate::brand::spec_vendor_str(*p),
{
    CpuBrand::vendor_str(p)
}

/// The logical core count: the designated byte of the processor-info leaf,
/// defaulting to one when the leaf is unavailable or reports zero.
pub open spec fn spec_logical_cores(p: Probe) -> u32 {
    if spec_max_leaf(p) < 1 {
        1
    } else {
        let count = (p.spec_query(LEAF_1).ebx >> 16) & 0xFF;
        if count == 0 {
            1
        } else {
            count
        }
    }
}

/// Returns the number of logical cores.
pub fn logical_cores(p: &Probe) -> (r: u32)
    ensures
        r == spec_logical_cores(*p),
{
    if max_leaf(p) < 1 {
        return 1;
    }
    let res = p.query(LEAF_1);
    let count = (res.ebx >> 16) & 0xFF;
    if count == 0 {
        1
    } else {
        count
    }
}

/// The brand-index byte of the processor-info leaf.
pub open spec fn spec_brand_id(p: Probe) -> u32 {
    p.spec_query(LEAF_1).ebx & 0xFF
}

/// Returns the brand-index byte of the processor-info leaf.
pub fn get_brand_id(p: &Probe) -> (r: u32)
    ensures
        r == spec_brand_id(*p),
{
    p.query(LEAF_1).ebx & 0xFF
}

/// One of the four result registers of an identification query.
#[derive(Debug, Clone, Copy, PartialEq, Eq, Structural)]
pub enum Reg {
    Eax,
    Ebx,
    Ecx,
    Edx,
}

/// The word of the chosen register.
pub open spec fn spec_reg_word(w: crate::probe::CpuInfo, register: Reg) -> u32 {
    match register {
        Reg::Eax => w.eax,
        Reg::Ebx => w.ebx,
        Reg::Ecx => w.ecx,
        Reg::Edx => w.edx,
    }
}

/// Whether the feature bit is set and its leaf lies within the reported
/// maximum of its range.  Leaf availability is tested before the bit, never
/// after.
pub open spec fn spec_has_feature(p: Probe, leaf: u32, register: Reg, bit: u32) -> bool {
    if leaf >= EXT_LEAF_0 && spec_max_extended_leaf(p) < leaf {
        false
    } else if leaf < EXT_LEAF_0 && spec_max_leaf(p) < leaf {
        false
    } else {
        spec_reg_word(p.spec_query(leaf), register) & (1u32 << bit) != 0
    }
}

/// Checks if a specific feature bit is set in the given leaf, gating on the
/// reported maximum leaf of the matching range first.
pub fn has_feature(p: &Probe, leaf: u32, register: Reg, bit: u32) -> (r: bool)
    requires
        bit < 32,
    ensures
        r == spec_has_feature(*p, leaf, register, bit),
{
    if leaf >= EXT_LEAF_0 {
        if max_extended_leaf(p) < leaf {
            return false;
        }
    } else if max_leaf(p) < leaf {
        return false;
    }
    let w = p.query(leaf);
    let word = match register {
        Reg::Eax => w.eax,
        Reg::Ebx => w.ebx,
        Reg::Ecx => w.ecx,
        Reg::Edx => w.edx,
    };
    (word & (1u32 << bit)) != 0
}

/// One name when the flag holds, nothing otherwise.
pub open spec fn maybe_name(b: bool, name: Seq<char>) -> Seq<Seq<char>> {
    if b {
        seq![name]
    } else {
        Seq::empty()
    }
}

/// What `has_fpu` reports.
pub open spec fn spec_has_fpu(p: Probe) -> bool {
    spec_has_feature(p, LEAF_1, Reg::Edx, 0)
}

/// Returns true if the CPU supports a Floating Point Unit (FPU).
pub fn has_fpu(p: &Probe) -> (r: bool)
    ensures
        r == spec_has_fpu(*p),
{
    has_feature(p, LEAF_1, Reg::Edx, 0)
}

/// What `has_tsc` reports.
pub open spec fn spec_has_tsc(p: Probe) -> bool {
    spec_has_feature(p, LEAF_1, Reg::Edx, 4)
}

/// Returns true if the CPU supports a Time Stamp Counter (TSC).
pub fn has_tsc(p: &Probe) -> (r: bool)
    ensures
        r == spec_has_tsc(*p),
{
    has_feature(p, LEAF_1, Reg::Edx, 4)
}

/// What `has_mmx` reports.
pub open spec fn spec_has_mmx(p: Probe) -> bool {
    spec_has_feature(p, LEAF_1, Reg::Edx, 23)
}

/// Returns true if the CPU supports MMX instructions.
pub fn has_mmx(p: &Probe) -> (r: bool)
    ensures
        r == spec_has_mmx(*p),
{
    has_feature(p, LEAF_1, Reg::Edx, 23)
}

/// What `has_cmov` reports.
pub open spec fn spec_has_cmov(p: Probe) -> bool {
    spec_has_feature(p, LEAF_1, Reg::Edx, 15)
}

/// Returns true if the CPU supports CMOV instructions.
pub fn has_cmov(p: &Probe) -> (r: bool)
    ensures
        r == spec_has_cmov(*p),
{
    has_feature(p, LEAF_1, Reg::Edx, 15)
}

/// What `has_cx8` reports.
pub open spec fn spec_has_cx8(p: Probe) -> bool {
    spec_has_feature(p, LEAF_1, Reg::Edx, 8)
}

/// Returns true if the CPU supports the CMPXCHG8B instruction.
pub fn has_cx8(p: &Probe) -> (r: bool)
    ensures
        r == spec_has_cx8(*p),
{
    has_feature(p, LEAF_1, Reg::Edx, 8)
}

/// What `has_sse` reports.
pub open spec fn spec_has_sse(p: Probe) -> bool {
    spec_has_feature(p, LEAF_1, Reg::Edx, 25)
}

/// Returns true if the CPU supports SSE instructions.
pub fn has_sse(p: &Probe) -> (r: bool)
    ensures
        r == spec_has_sse(*p),
{
    has_feature(p, LEAF_1, Reg::Edx, 25)
}

/// What `has_sse2` reports.
pub open spec fn spec_has_sse2(p: Probe) -> bool {
    spec_has_feature(p, LEAF_1, Reg::Edx, 26)
}

/// Returns true if the CPU supports SSE2 instructions.
pub fn has_sse2(p: &Probe) -> (r: bool)
    ensures
        r == spec_has_sse2(*p),
{
    has_feature(p, LEAF_1, Reg::Edx, 26)
}

/// What `has_ht` reports.
pub open spec fn spec_has_ht(p: Probe) -> bool {
    spec_has_feature(p, LEAF_1, Reg::Edx, 28)
}

/// Returns true if the CPU supports Hyper-Threading.
pub fn has_ht(p: &Probe) -> (r: bool)
    ensures
        r == spec_has_ht(*p),
{
    has_feature(p, LEAF_1, Reg::Edx, 28)
}

/// What `has_sse3` reports.
pub open spec fn spec_has_sse3(p: Probe) -> bool {
    spec_has_feature(p, LEAF_1, Reg::Ecx, 0)
}

/// Returns true if the CPU supports SSE3 instructions.
pub fn has_sse3(p: &Probe) -> (r: bool)
    ensures
        r == spec_has_sse3(*p),
{
    has_feature(p, LEAF_1, Reg::Ecx, 0)
}

/// What `has_ssse3` reports.
pub open spec fn spec_has_ssse3(p: Probe) -> bool {
    spec_has_feature(p, LEAF_1, Reg::Ecx, 9)
}

/// Returns true if the CPU supports SSSE3 instructions.
pub fn has_ssse3(p: &Probe) -> (r: bool)
    ensures
        r == spec_has_ssse3(*p),
{
    has_feature(p, LEAF_1, Reg::Ecx, 9)
}

/// What `has_fma` reports.
pub open spec fn spec_has_fma(p: Probe) -> bool {
    spec_has_feature(p, LEAF_1, Reg::Ecx, 12)
}

/// Returns true if the CPU supports FMA (Fused Multiply Add).
pub fn has_fma(p: &Probe) -> (r: bool)
    ensures
        r == spec_has_fma(*p),
{
    has_feature(p, LEAF_1, Reg::Ecx, 12)
}

/// What `has_cx16` reports.
pub open spec fn spec_has_cx16(p: Probe) -> bool {
    spec_has_feature(p, LEAF_1, Reg::Ecx, 13)
}

/// Returns true if the CPU supports the CMPXCHG16B instruction.
pub fn has_cx16(p: &Probe) -> (r: bool)
    ensures
        r == spec_has_cx16(*p),
{
    has_feature(p, LEAF_1, Reg::Ecx, 13)
}

/// What `has_sse41` reports.
pub open spec fn spec_has_sse41(p: Probe) -> bool {
    spec_has_feature(p, LEAF_1, Reg::Ecx, 19)
}

/// Returns true if the CPU supports SSE4.1 instructions.
pub fn has_sse41(p: &Probe) -> (r: bool)
    ensures
        r == spec_has_sse41(*p),
{
    has_feature(p, LEAF_1, Reg::Ecx, 19)
}

/// What `has_sse42` reports.
pub open spec fn spec_has_sse42(p: Probe) -> bool {
    spec_has_feature(p, LEAF_1, Reg::Ecx, 20)
}

/// Returns true if the CPU supports SSE4.2 instructions.
pub fn has_sse42(p: &Probe) -> (r: bool)
    ensures
        r == spec_has_sse42(*p),
{
    has_feature(p, LEAF_1, Reg::Ecx, 20)
}

/// What `has_popcnt` reports.
pub open spec fn spec_has_popcnt(p: Probe) -> bool {
    spec_has_feature(p, LEAF_1, Reg::Ecx, 23)
}

/// Returns true if the CPU supports the POPCNT instruction.
pub fn has_popcnt(p: &Probe) -> (r: bool)
    ensures
        r == spec_has_popcnt(*p),
{
    has_feature(p, LEAF_1, Reg::Ecx, 23)
}

/// What `has_avx` reports.
pub open spec fn spec_has_avx(p: Probe) -> bool {
    spec_has_feature(p, LEAF_1, Reg::Ecx, 28)
}

/// Returns true if the CPU supports AVX instructions.
pub fn has_avx(p: &Probe) -> (r: bool)
    ensures
        r == spec_has_avx(*p),
{
    has_feature(p, LEAF_1, Reg::Ecx, 28)
}

/// What `has_f16c` reports.
pub open spec fn spec_has_f16c(p: Probe) -> bool {
    spec_has_feature(p, LEAF_1, Reg::Ecx, 29)
}

/// Returns true if the CPU supports F16C (half-precision conversion) instructions.
pub fn has_f16c(p: &Probe) -> (r: bool)
    ensures
        r == spec_has_f16c(*p),
{
    has_feature(p, LEAF_1, Reg::Ecx, 29)
}

/// What `has_rdrand` reports.
pub open spec fn spec_has_rdrand(p: Probe) -> bool {
    spec_has_feature(p, LEAF_1, Reg::Ecx, 30)
}

/// Returns true if the CPU supports the RDRAND instruction.
pub fn has_rdrand(p: &Probe) -> (r: bool)
    ensures
        r == spec_has_rdrand(*p),
{
    has_feature(p, LEAF_1, Reg::Ecx, 30)
}

/// What `has_avx2` reports.
pub open spec fn spec_has_avx2(p: Probe) -> bool {
    spec_has_feature(p, LEAF_7, Reg::Ebx, 5)
}

/// Returns true if the CPU supports AVX2 instructions.
pub fn has_avx2(p: &Probe) -> (r: bool)
    ensures
        r == spec_has_avx2(*p),
{
    has_feature(p, LEAF_7, Reg::Ebx, 5)
}

/// What `has_avx512f` reports.
pub open spec fn spec_has_avx512f(p: Probe) -> bool {
    spec_has_feature(p, LEAF_7, Reg::Ebx, 16)
}

/// Returns true if the CPU supports AVX-512 Foundation instructions.
pub fn has_avx512f(p: &Probe) -> (r: bool)
    ensures
        r == spec_has_avx512f(*p),
{
    has_feature(p, LEAF_7, Reg::Ebx, 16)
}

/// What `has_bmi1` reports.
pub open spec fn spec_has_bmi1(p: Probe) -> bool {
    spec_has_feature(p, LEAF_7, Reg::Ebx, 3)
}

/// Returns true if the CPU supports BMI1 (Bit Manipulation Instructions).
pub fn has_bmi1(p: &Probe) -> (r: bool)
    ensures
        r == spec_has_bmi1(*p),
{
    has_feature(p, LEAF_7, Reg::Ebx, 3)
}

/// What `has_bmi2` reports.
pub open spec fn spec_has_bmi2(p: Probe) -> bool {
    spec_has_feature(p, LEAF_7, Reg::Ebx, 8)
}

/// Returns true if the CPU supports BMI2 instructions.
pub fn has_bmi2(p: &Probe) -> (r: bool)
    ensures
        r == spec_has_bmi2(*p),
{
    has_feature(p, LEAF_7, Reg::Ebx, 8)
}

/// What `has_sse4a` reports: the raw bit, forced false away from the one
/// vendor whose hardware gives the bit this meaning.
pub open spec fn spec_has_sse4a(p: Probe) -> bool {
    CpuBrand::spec_detect(p) == CpuBrand::AMD && spec_has_feature(p, EXT_LEAF_1, Reg::Ecx, 6)
}

/// Returns true if the CPU supports SSE4A instructions (AMD-specific).
pub fn has_sse4a(p: &Probe) -> (r: bool)
    ensures
        r == spec_has_sse4a(*p),
{
    if !matches!(CpuBrand::detect(p), CpuBrand::AMD) {
        return false;
    }
    has_feature(p, EXT_LEAF_1, Reg::Ecx, 6)
}

/// What `has_amd64` reports.
pub open spec fn spec_has_amd64(p: Probe) -> bool {
    spec_has_feature(p, EXT_LEAF_1, Reg::Edx, 29)
}

/// Returns true if the CPU supports AMD64 (x86-64) instructions.
pub fn has_amd64(p: &Probe) -> (r: bool)
    ensures
        r == spec_has_amd64(*p),
{
    has_feature(p, EXT_LEAF_1, Reg::Edx, 29)
}

/// What `has_3dnow_plus` reports.
pub open spec fn spec_has_3dnow_plus(p: Probe) -> bool {
    spec_has_feature(p, EXT_LEAF_1, Reg::Edx, 30)
}

/// Returns true if the CPU supports 3DNow!+ instructions.
pub fn has_3dnow_plus(p: &Probe) -> (r: bool)
    ensures
        r == spec_has_3dnow_plus(*p),
{
    has_feature(p, EXT_LEAF_1, Reg::Edx, 30)
}

/// What `has_3dnow` reports.
pub open spec fn spec_has_3dnow(p: Probe) -> bool {
    spec_has_feature(p, EXT_LEAF_1, Reg::Edx, 31)
}

/// Returns true if the CPU supports 3DNow! instructions.
pub fn has_3dnow(p: &Probe) -> (r: bool)
    ensures
        r == spec_has_3dnow(*p),
{
    has_feature(p, EXT_LEAF_1, Reg::Edx, 31)
}


/// One tracked capability: its display label and whether the probe
/// reports it.
#[derive(Debug, Clone, Copy)]
pub struct FeatEntry {
    /// Whether the capability is supported.
    pub supported: bool,
    /// The display label of the capability.
    pub label: &'static str,
}

/// The mathematical content of a [`FeatEntry`].
pub struct FeatEntryView {
    /// Whether the capability is supported.
    pub supported: bool,
    /// The display label of the capability.
    pub label: Seq<char>,
}

impl View for FeatEntry {
    type V = FeatEntryView;

    open spec fn view(&self) -> FeatEntryView {
        FeatEntryView { supported: self.supported, label: self.label@ }
    }
}

/// The views of a sequence of capability entries.
pub open spec fn entry_views(s: Seq<FeatEntry>) -> Seq<FeatEntryView> {
    s.map_values(|e: FeatEntry| e@)
}

/// The labels of the supported entries, in order.
pub open spec fn spec_collect(entries: Seq<FeatEntryView>) -> Seq<Seq<char>>
    decreases entries.len(),
{
    if entries.len() == 0 {
        Seq::empty()
    } else if entries.last().supported {
        spec_collect(entries.drop_last()).push(entries.last().label)
    } else {
        spec_collect(entries.drop_last())
    }
}

/// No entry supported means nothing is collected.
pub proof fn lemma_collect_unsupported(entries: Seq<FeatEntryView>)
    requires
        forall|i: int| 0 <= i < entries.len() ==> !entries[i].supported,
    ensures
        spec_collect(entries) == Seq::<Seq<char>>::empty(),
    decreases entries.len(),
{
    if entries.len() == 0 {
    } else {
        assert(forall|i: int|
            0 <= i < entries.len() - 1 ==> entries.drop_last()[i] == entries[i]);
        lemma_collect_unsupported(entries.drop_last());
    }
}

/// Collects the label of every supported entry, in order.
fn collect_labels(entries: &Vec<FeatEntry>) -> (r: Vec<&'static str>)
    ensures
        str_views(r@) == spec_collect(entry_views(entries@)),
        r@.len() <= entries@.len(),
{
    let n = entries.len();
    let mut out: Vec<&'static str> = Vec::new();
    proof {
        assert(str_views(out@) =~= Seq::<Seq<char>>::empty());
        assert(entry_views(entries@).take(0) =~= Seq::<FeatEntryView>::empty());
    }
    let mut i: usize = 0;
    while i < n
        invariant
            i <= n,
            n == entries@.len(),
            out@.len() <= i,
            str_views(out@) == spec_collect(entry_views(entries@).take(i as int)),
        decreases n - i,
    {
        let e = entries[i];
        let ghost prev = out@;
        if e.supported {
            out.push(e.label);
        }
        proof {
            let evs = entry_views(entries@);
            assert(evs.take(i + 1).drop_last() =~= evs.take(i as int));
            assert(evs.take(i + 1).last() == evs[i as int]);
            if e.supported {
                assert(str_views(out@) =~= str_views(prev).push(e.label@));
            }
        }
        i += 1;
    }
    proof {
        assert(entry_views(entries@).take(n as int) =~= entry_views(entries@));
    }
    out
}


/// The tracked capabilities of the probed processor, each paired with its
/// display label, in the fixed display order.
pub open spec fn spec_feature_entries(p: Probe) -> Seq<FeatEntryView> {
    seq![
        FeatEntryView { supported: spec_has_fpu(p), label: "FPU"@ },
        FeatEntryView { supported: spec_has_tsc(p), label: "TSC"@ },
        FeatEntryView { supported: spec_has_cx8(p), label: "CMPXCHG8B"@ },
        FeatEntryView { supported: spec_has_cx16(p), label: "CMPXCHG16B"@ },
        FeatEntryView { supported: spec_has_cmov(p), label: "CMOV"@ },
        FeatEntryView { supported: spec_has_mmx(p), label: "MMX"@ },
        FeatEntryView { supported: spec_has_3dnow(p), label: "3DNow!"@ },
        FeatEntryView { supported: spec_has_3dnow_plus(p), label: "3DNow+"@ },
        FeatEntryView { supported: spec_has_ht(p), label: "HT"@ },
        FeatEntryView { supported: spec_has_amd64(p), label: "AMD64"@ },
        FeatEntryView { supported: spec_has_sse(p), label: "SSE"@ },
        FeatEntryView { supported: spec_has_sse2(p), label: "SSE2"@ },
        FeatEntryView { supported: spec_has_sse3(p), label: "SSE3"@ },
        FeatEntryView { supported: spec_has_sse4a(p), label: "SSE4A"@ },
        FeatEntryView { supported: spec_has_sse41(p), label: "SSE4.1"@ },
        FeatEntryView { supported: spec_has_sse42(p), label: "SSE4.2"@ },
        FeatEntryView { supported: spec_has_ssse3(p), label: "SSSE3"@ },
        FeatEntryView { supported: spec_has_avx(p), label: "AVX"@ },
        FeatEntryView { supported: spec_has_avx2(p), label: "AVX2"@ },
        FeatEntryView { supported: spec_has_avx512f(p), label: "AVX512F"@ },
        FeatEntryView { supported: spec_has_fma(p), label: "FMA"@ },
        FeatEntryView { supported: spec_has_bmi1(p), label: "BMI1"@ },
        FeatEntryView { supported: spec_has_bmi2(p), label: "BMI2"@ },
        FeatEntryView { supported: spec_has_rdrand(p), label: "RDRAND"@ },
        FeatEntryView { supported: spec_has_popcnt(p), label: "POPCNT"@ },
        FeatEntryView { supported: spec_has_f16c(p), label: "F16C"@ },
    ]
}

/// The names of the supported features, in the fixed display order.
pub open spec fn spec_feature_names(p: Probe) -> Seq<Seq<char>> {
    spec_collect(spec_feature_entries(p))
}

/// Get the full list of detected features, in the fixed display order.
pub fn get_feature_list(p: &Probe) -> (r: FeatureList)
    ensures
        feat_names(r) == spec_feature_names(*p),
{
    let entries: Vec<FeatEntry> = vec![
        FeatEntry { supported: has_fpu(p), label: "FPU" },
        FeatEntry { supported: has_tsc(p), label: "TSC" },
        FeatEntry { supported: has_cx8(p), label: "CMPXCHG8B" },
        FeatEntry { supported: has_cx16(p), label: "CMPXCHG16B" },
        FeatEntry { supported: has_cmov(p), label: "CMOV" },
        FeatEntry { supported: has_mmx(p), label: "MMX" },
        FeatEntry { supported: has_3dnow(p), label: "3DNow!" },
        FeatEntry { supported: has_3dnow_plus(p), label: "3DNow+" },
        FeatEntry { supported: has_ht(p), label: "HT" },
        FeatEntry { supported: has_amd64(p), label: "AMD64" },
        FeatEntry { supported: has_sse(p), label: "SSE" },
        FeatEntry { supported: has_sse2(p), label: "SSE2" },
        FeatEntry { supported: has_sse3(p), label: "SSE3" },
        FeatEntry { supported: has_sse4a(p), label: "SSE4A" },
        FeatEntry { supported: has_sse41(p), label: "SSE4.1" },
        FeatEntry { supported: has_sse42(p), label: "SSE4.2" },
        FeatEntry { supported: has_ssse3(p), label: "SSSE3" },
        FeatEntry { supported: has_avx(p), label: "AVX" },
        FeatEntry { supported: has_avx2(p), label: "AVX2" },
        FeatEntry { supported: has_avx512f(p), label: "AVX512F" },
        FeatEntry { supported: has_fma(p), label: "FMA" },
        FeatEntry { supported: has_bmi1(p), label: "BMI1" },
        FeatEntry { supported: has_bmi2(p), label: "BMI2" },
        FeatEntry { supported: has_rdrand(p), label: "RDRAND" },
        FeatEntry { supported: has_popcnt(p), label: "POPCNT" },
        FeatEntry { supported: has_f16c(p), label: "F16C" },
    ];
    proof {
        assert(entry_views(entries@) =~= spec_feature_entries(*p));
    }
    let v = collect_labels(&entries);
    feat_vec_from(&v)
}

/// Leaf gating: a capability defined on the extended-feature leaf reports
/// absent whenever the maximum basic leaf lies below that leaf, whatever the
/// raw words recorded for it hold.
pub proof fn lemma_leaf_gating(p: Probe)
    requires
        spec_max_leaf(p) < LEAF_7,
    ensures
        !spec_has_avx2(p),
        !spec_has_avx512f(p),
        !spec_has_bmi1(p),
        !spec_has_bmi2(p),
{
}

/// Without the identification instruction every capability flag is false:
/// all queries degrade to zero words, so no leaf reaches its reported
/// maximum and every bit test is skipped.
pub proof fn lemma_no_support_no_features(p: Probe)
    requires
        !p.has_cpuid,
    ensures
        spec_feature_names(p) == Seq::<Seq<char>>::empty(),
        !spec_has_fpu(p),
        !spec_has_tsc(p),
        !spec_has_mmx(p),
        !spec_has_cmov(p),
        !spec_has_cx8(p),
        !spec_has_sse(p),
        !spec_has_sse2(p),
        !spec_has_ht(p),
        !spec_has_sse3(p),
        !spec_has_ssse3(p),
        !spec_has_fma(p),
        !spec_has_cx16(p),
        !spec_has_sse41(p),
        !spec_has_sse42(p),
        !spec_has_popcnt(p),
        !spec_has_avx(p),
        !spec_has_f16c(p),
        !spec_has_rdrand(p),
        !spec_has_avx2(p),
        !spec_has_avx512f(p),
        !spec_has_bmi1(p),
        !spec_has_bmi2(p),
        !spec_has_sse4a(p),
        !spec_has_amd64(p),
        !spec_has_3dnow_plus(p),
        !spec_has_3dnow(p),
{
    assert(forall|i: int|
        0 <= i < spec_feature_entries(p).len() ==> !spec_feature_entries(p)[i].supported);
    lemma_collect_unsupported(spec_feature_entries(p));
}

} // verus!
