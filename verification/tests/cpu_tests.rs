//! Profile tests: model string assembly, feature detection, leaf gating,
//! the diagnostic string, and the display model name.

use rustid::brand::CpuBrand;
use rustid::cpu::{Cpu, CpuSignature};
use rustid::fns::{get_feature_list, has_avx2, has_sse4a, logical_cores, max_leaf};
use rustid::micro_arch::{CpuArch, MicroArch};
use rustid::probe::{CpuInfo, Probe};

fn intel_probe() -> Probe {
    let mut p = Probe::default();
    p.has_cpuid = true;
    p.has_ac_flag = true;
    p.leaf0 = CpuInfo::new(0x16, 0x756E6547, 0x6C65746E, 0x49656E69);
    // Family 6, extended model 9, model 0xE, stepping 0xA; eight logical
    // cores; FPU, TSC, MMX, SSE, SSE2 in EDX; SSE3, SSSE3 in ECX.
    p.leaf1 = CpuInfo::new(0x000906EA, 0x00080000, 0x00000201, 0x06800011);
    p.ext0 = CpuInfo::new(0x80000004, 0, 0, 0);
    // "  Test CPU @ 3.00GHz" padded with zero bytes to the full 48.
    p.ext2 = CpuInfo::new(0x65542020, 0x43207473, 0x40205550, 0x302E3320);
    p.ext3 = CpuInfo::new(0x7A484730, 0, 0, 0);
    p.ext4 = CpuInfo::new(0, 0, 0, 0);
    p
}

fn amd_probe() -> Probe {
    let mut p = Probe::default();
    p.has_cpuid = true;
    p.has_ac_flag = true;
    p.leaf0 = CpuInfo::new(0xD, 0x68747541, 0x444D4163, 0x69746E65);
    // Raven Ridge: extended family 8, family 15, extended model 1, model 1.
    p.leaf1 = CpuInfo::new(0x00810F10, 0x00080000, 0x00000201, 0x06800011);
    p.ext0 = CpuInfo::new(0x80000001, 0, 0, 0);
    // SSE4A in ECX bit 6 of the extended-processor-info leaf.
    p.ext1 = CpuInfo::new(0, 0, 0x00000040, 0);
    // "IT'S HAMMER TIME" at the diagnostic leaf.
    p.amd_egg = CpuInfo::new(0x53275449, 0x4D414820, 0x2052454D, 0x454D4954);
    p
}

#[test]
fn test_model_string() {
    let model = Cpu::model_string(&intel_probe());
    println!("Model: {}", model.as_str());
    assert!(!model.as_str().is_empty());
}

#[test]
fn model_string_is_trimmed_and_zero_skipped() {
    // Leading spaces and the zero padding must both disappear.
    let model = Cpu::model_string(&intel_probe());
    assert_eq!(model.as_str(), "Test CPU @ 3.00GHz");
}

#[test]
fn model_string_unknown_when_extended_leaves_are_missing() {
    let mut p = intel_probe();
    // The brand-string leaves need extended leaf 4; report one less.
    p.ext0 = CpuInfo::new(0x80000003, 0, 0, 0);
    assert_eq!(Cpu::model_string(&p).as_str(), "Unknown");
}

#[test]
fn test_cpu_features_detect() {
    let features = get_feature_list(&intel_probe());
    println!("Detected CPU Features: {:?}", features);
    assert!(!features.is_empty());
}

#[test]
fn feature_list_is_ordered_and_exact() {
    let features = get_feature_list(&intel_probe());
    assert_eq!(
        features.as_slice(),
        &["FPU", "TSC", "MMX", "SSE", "SSE2", "SSE3", "SSSE3"]
    );
}

#[test]
fn unsupported_instruction_leaves_no_features_and_no_model() {
    // No identification instruction and a silent side channel.
    let p = Probe::default();
    assert!(get_feature_list(&p).is_empty());
    assert_eq!(Cpu::model_string(&p).as_str(), "Unknown");
    assert_eq!(logical_cores(&p), 1);
}

#[test]
fn leaf_bound_is_checked_before_the_bit() {
    let mut p = Probe::default();
    p.has_cpuid = true;
    // Maximum basic leaf below 7, yet the raw extended-feature words are all
    // ones: every leaf-7 capability must still be absent.
    p.leaf0 = CpuInfo::new(1, 0, 0, 0);
    p.leaf7 = CpuInfo::new(0xFFFFFFFF, 0xFFFFFFFF, 0xFFFFFFFF, 0xFFFFFFFF);
    assert!(!has_avx2(&p));
    assert_eq!(max_leaf(&p), 1);
    // Raising the reported maximum makes the same raw bit count.
    p.leaf0 = CpuInfo::new(7, 0, 0, 0);
    assert!(has_avx2(&p));
}

#[test]
fn sse4a_needs_the_one_vendor_that_defines_it() {
    let amd = amd_probe();
    assert!(has_sse4a(&amd));
    // The same bit pattern under another identifying string reports false.
    let mut other = amd_probe();
    other.leaf0 = CpuInfo::new(0xD, 0x756E6547, 0x6C65746E, 0x49656E69);
    assert!(!has_sse4a(&other));
}

#[test]
fn test_easter_egg() {
    let easter_egg = Cpu::easter_egg(&amd_probe());
    println!("Easter Egg: {:?}", easter_egg);
    assert_eq!(easter_egg.unwrap().as_str(), "IT'S HAMMER TIME");
}

#[test]
fn easter_egg_absent_for_other_vendors() {
    assert!(Cpu::easter_egg(&intel_probe()).is_none());
    assert!(Cpu::easter_egg(&Probe::default()).is_none());
}

#[test]
fn test_cpu_new() {
    let p = intel_probe();
    let cpu = Cpu::new(&p);
    println!("New CPU instance: {:?}", cpu);
    assert!(!cpu.arch.vendor_string.as_str().is_empty());
    assert!(!cpu.features.is_empty());
}

#[test]
fn cpu_new_composes_the_probe() {
    let cpu = Cpu::new(&amd_probe());
    assert_eq!(cpu.arch.vendor_string.as_str(), "AuthenticAMD");
    assert_eq!(cpu.arch.brand_name.as_str(), "AMD");
    assert_eq!(cpu.arch.micro_arch, MicroArch::Zen);
    assert_eq!(cpu.arch.code_name, "RavenRidge");
    assert_eq!(cpu.arch.technology.as_ref().unwrap().as_str(), "14nm");
    assert_eq!(cpu.threads, 8);
    assert_eq!(cpu.brand_id, 0);
    assert_eq!(cpu.signature.extended_family, 8);
    assert_eq!(cpu.signature.family, 15);
    assert_eq!(cpu.signature.extended_model, 1);
    assert_eq!(cpu.signature.model, 1);
    assert_eq!(cpu.signature.stepping, 0);
    assert_eq!(cpu.signature.display_family, 23);
    assert_eq!(cpu.signature.display_model, 0x11);
    assert_eq!(cpu.easter_egg.as_ref().unwrap().as_str(), "IT'S HAMMER TIME");
    assert!(CpuBrand::detect(&amd_probe()) == CpuBrand::AMD);
}

#[test]
fn test_display_model_string() {
    let probe = {
        let mut p = Probe::default();
        p.has_cpuid = true;
        p.has_ac_flag = true;
        p
    };
    let features = get_feature_list(&probe);

    // Test case for MicroArch::Am486
    let mut arch_am486 = CpuArch::default();
    arch_am486.micro_arch = MicroArch::Am486;

    arch_am486.code_name = "Am486DX2";
    let cpu_am486_dx2 = Cpu {
        arch: arch_am486.clone(),
        brand_id: 0,
        easter_egg: None,
        threads: 1,
        signature: CpuSignature::detect(0), // Signature doesn't affect this path
        features: features.clone(),
    };
    assert_eq!(cpu_am486_dx2.display_model_string(&probe), "AMD 486 DX2");

    arch_am486.code_name = "Am486X2WB";
    let cpu_am486_x2wb = Cpu {
        arch: arch_am486.clone(),
        brand_id: 0,
        easter_egg: None,
        threads: 1,
        signature: CpuSignature::detect(0),
        features: features.clone(),
    };
    assert_eq!(
        cpu_am486_x2wb.display_model_string(&probe),
        "AMD 486 DX2 with Write-Back Cache"
    );

    // Test case for MicroArch::I486
    let mut arch_i486 = CpuArch::default();
    arch_i486.micro_arch = MicroArch::I486;

    arch_i486.code_name = "i80486DX";
    let cpu_i486_dx = Cpu {
        arch: arch_i486.clone(),
        brand_id: 0,
        easter_egg: None,
        threads: 1,
        signature: CpuSignature::detect(0),
        features: features.clone(),
    };
    assert_eq!(cpu_i486_dx.display_model_string(&probe), "Intel 486 DX");

    // Test case for an all-zero signature
    let cpu_no_cpuid = Cpu {
        arch: CpuArch::default(),
        brand_id: 0,
        easter_egg: None,
        threads: 1,
        signature: CpuSignature {
            extended_family: 0,
            family: 0,
            extended_model: 0,
            model: 0,
            stepping: 0,
            display_family: 0,
            display_model: 0,
            is_overdrive: false,
        },
        features: features.clone(),
    };
    assert_eq!(cpu_no_cpuid.display_model_string(&probe), "486 Class CPU");

    // Test case for "Unknown"
    let cpu_unknown = Cpu {
        arch: CpuArch::default(),
        brand_id: 0,
        easter_egg: None,
        threads: 1,
        signature: CpuSignature {
            extended_family: 1, // Make it not all zeros
            family: 1,
            extended_model: 1,
            model: 1,
            stepping: 1,
            display_family: 1,
            display_model: 1,
            is_overdrive: false,
        },
        features: features.clone(),
    };
    assert_eq!(cpu_unknown.display_model_string(&probe), "Unknown");
}

#[test]
fn display_model_prefers_the_reported_model_string() {
    let p = intel_probe();
    let cpu = Cpu::new(&p);
    assert_eq!(cpu.display_model_string(&p), "Test CPU @ 3.00GHz");
}

#[test]
fn display_model_uses_the_brand_index_table() {
    let mut p = intel_probe();
    // No brand-string leaves, brand index 0x02, a Pentium-III-era signature.
    p.ext0 = CpuInfo::new(0, 0, 0, 0);
    p.ext2 = CpuInfo::new(0, 0, 0, 0);
    p.ext3 = CpuInfo::new(0, 0, 0, 0);
    p.leaf1 = CpuInfo::new(0x00000681, 0x00010002, 0, 0x06800011);
    let cpu = Cpu::new(&p);
    assert_eq!(cpu.brand_id, 2);
    assert_eq!(
        cpu.display_model_string(&p),
        "Intel® Pentium® III processor"
    );
}

#[test]
fn test_vendor_str() {
    let vendor = rustid::fns::vendor_str(&intel_probe());
    println!("Vendor: {}", vendor.as_str());
    assert!(!vendor.as_str().is_empty());
}

#[test]
fn legacy_enablement_runs_only_for_the_silent_legacy_vendor() {
    let mut p = Probe::default();
    assert!(!rustid::probe::needs_legacy_enable(&p));
    p.is_cyrix = true;
    assert!(rustid::probe::needs_legacy_enable(&p));
    p.has_cpuid = true;
    assert!(!rustid::probe::needs_legacy_enable(&p));
}

#[test]
fn logical_cores_defaults_to_one() {
    let mut p = intel_probe();
    assert_eq!(logical_cores(&p), 8);
    // A reported count of zero reads as one.
    p.leaf1 = CpuInfo::new(0x000906EA, 0, 0, 0);
    assert_eq!(logical_cores(&p), 1);
    // A maximum basic leaf below the processor-info leaf reads as one.
    p.leaf0 = CpuInfo::new(0, 0x756E6547, 0x6C65746E, 0x49656E69);
    assert_eq!(logical_cores(&p), 1);
}
