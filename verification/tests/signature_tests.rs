//! Signature decoding tests: field extraction, the display coalescing rule,
//! and the round trip back into the processor-info word.

use rustid::cpu::CpuSignature;
use rustid::probe::{CpuInfo, Probe};

#[test]
fn test_cpu_signature_detect() {
    // A Kaby-Lake-era processor-info word.
    let signature = CpuSignature::detect(0x000906EA);
    println!("Detected CPU Signature: {:?}", signature);
    assert!(signature.family > 0 || signature.extended_family > 0 || signature.model > 0);
}

#[test]
fn detect_extracts_every_field() {
    let s = CpuSignature::detect(0x000906EA);
    assert_eq!(s.stepping, 0xA);
    assert_eq!(s.model, 0xE);
    assert_eq!(s.family, 0x6);
    assert_eq!(s.extended_model, 0x9);
    assert_eq!(s.extended_family, 0x0);
    assert_eq!(s.display_family, 0x6);
    assert_eq!(s.display_model, 0x9E);
    assert!(!s.is_overdrive);
}

#[test]
fn display_family_folds_extended_family_at_the_maximum() {
    // Family 0xF: the display family is the sum of the two fields.
    let s = CpuSignature::detect(0x00A20F12);
    assert_eq!(s.family, 0xF);
    assert_eq!(s.extended_family, 0xA);
    assert_eq!(s.display_family, 0xF + 0xA);
    assert_eq!(s.display_model, (0x2 << 4) + 0x1);
}

#[test]
fn display_model_ignores_extended_model_outside_families_6_and_15() {
    // Family 5: the display model is the raw model, even with the
    // extended-model bits set.
    let s = CpuSignature::detect(0x00090543);
    assert_eq!(s.family, 0x5);
    assert_eq!(s.extended_model, 0x9);
    assert_eq!(s.display_model, 0x4);
    assert_eq!(s.display_family, 0x5);
}

#[test]
fn detect_reads_the_overdrive_type_bits() {
    // Processor-type field 01b marks an OverDrive part.
    let s = CpuSignature::detect(0x00001543);
    assert!(s.is_overdrive);
    let s = CpuSignature::detect(0x00000543);
    assert!(!s.is_overdrive);
}

#[test]
fn signature_round_trips_through_encode() {
    for &eax in &[0x00000000u32, 0x000906EA, 0x00A20F12, 0x00800F11, 0x0FFF0FFF, 0x00000543] {
        let s = CpuSignature::detect(eax & 0x0FFF_0FFF);
        assert_eq!(s.encode(), eax & 0x0FFF_0FFF);
    }
}

#[test]
fn default_signature_is_all_zero() {
    let s = CpuSignature::default();
    assert_eq!(s, CpuSignature::detect(0));
    assert_eq!(s.encode(), 0);
}

#[test]
fn query_degrades_to_zero_without_support() {
    let mut p = Probe::default();
    p.leaf1 = CpuInfo::new(0x000906EA, 1, 2, 3);
    // Recorded words notwithstanding, an unsupported instruction reports
    // nothing.
    assert_eq!(p.query(1), CpuInfo::new(0, 0, 0, 0));
    p.has_cpuid = true;
    assert_eq!(p.query(1), CpuInfo::new(0x000906EA, 1, 2, 3));
}

#[test]
fn test_x86_cpuid_leaf_0() {
    let mut p = Probe::default();
    p.has_cpuid = true;
    p.leaf0 = CpuInfo::new(0x16, 0x756E6547, 0x6C65746E, 0x49656E69);
    let cpu_info = p.query(0);
    println!("CPUID Leaf 0: {:?}", cpu_info);
    assert!(cpu_info.eax > 0);
}

#[test]
fn test_from_cpuid_result_for_cpu_info() {
    let cpuid_result = core::arch::x86_64::CpuidResult {
        eax: 10,
        ebx: 20,
        ecx: 30,
        edx: 40,
    };
    let cpu_info: CpuInfo = cpuid_result.into();
    assert_eq!(cpu_info.eax, 10);
    assert_eq!(cpu_info.ebx, 20);
    assert_eq!(cpu_info.ecx, 30);
    assert_eq!(cpu_info.edx, 40);
}

#[test]
fn test_cpu_info_udebug() {
    let info = CpuInfo {
        eax: 1,
        ebx: 2,
        ecx: 3,
        edx: 4,
    };
    let s = format!("{:?}", info);
    assert_eq!(s.as_str(), "CpuInfo { eax: 1, ebx: 2, ecx: 3, edx: 4 }");
}
