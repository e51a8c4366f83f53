//! Vendor resolution tests.

use rustid::brand::{
    CpuBrand, UNK, VENDOR_AMD, VENDOR_CENTAUR, VENDOR_CYRIX, VENDOR_DMP, VENDOR_HYGON,
    VENDOR_INTEL, VENDOR_NEXGEN, VENDOR_NSC, VENDOR_RISE, VENDOR_SIS, VENDOR_TRANSMETA, VENDOR_UMC,
};
use rustid::probe::{CpuInfo, Probe};

use core::str::FromStr;

fn intel_probe() -> Probe {
    let mut p = Probe::default();
    p.has_cpuid = true;
    p.has_ac_flag = true;
    p.leaf0 = CpuInfo::new(0x16, 0x756E6547, 0x6C65746E, 0x49656E69);
    p
}

#[test]
fn test_vendor_id() {
    let vendor = CpuBrand::vendor_str(&intel_probe());
    println!("Vendor: {}", vendor.as_str());
    assert!(!vendor.as_str().is_empty());
}

#[test]
fn test_detect_cpu_brand() {
    let brand = CpuBrand::detect(&intel_probe());
    // The detected brand follows from the words recorded in the probe.
    println!("Detected CPU Brand: {:?}", brand);
}

#[test]
fn test_to_vendor_str() {
    assert_eq!(CpuBrand::AMD.to_vendor_str(), VENDOR_AMD);
    assert_eq!(CpuBrand::Cyrix.to_vendor_str(), VENDOR_CYRIX);
    assert_eq!(CpuBrand::DMP.to_vendor_str(), VENDOR_DMP);
    assert_eq!(CpuBrand::Hygon.to_vendor_str(), VENDOR_HYGON);
    assert_eq!(CpuBrand::IDT.to_vendor_str(), VENDOR_CENTAUR);
    assert_eq!(CpuBrand::Intel.to_vendor_str(), VENDOR_INTEL);
    assert_eq!(CpuBrand::NationalSemiconductor.to_vendor_str(), VENDOR_NSC);
    assert_eq!(CpuBrand::NexGen.to_vendor_str(), VENDOR_NEXGEN);
    assert_eq!(CpuBrand::Rise.to_vendor_str(), VENDOR_RISE);
    assert_eq!(CpuBrand::SiS.to_vendor_str(), VENDOR_SIS);
    assert_eq!(CpuBrand::Transmeta.to_vendor_str(), VENDOR_TRANSMETA);
    assert_eq!(CpuBrand::Umc.to_vendor_str(), VENDOR_UMC);
    assert_eq!(CpuBrand::Via.to_vendor_str(), VENDOR_CENTAUR);
    assert_eq!(CpuBrand::Zhaoxin.to_vendor_str(), VENDOR_CENTAUR);
    assert_eq!(CpuBrand::Unknown.to_vendor_str(), UNK);
}

#[test]
fn test_to_brand_name() {
    assert_eq!(CpuBrand::AMD.to_brand_name(), "AMD");
    assert_eq!(CpuBrand::Cyrix.to_brand_name(), "Cyrix/IBM/ST/TI");
    assert_eq!(CpuBrand::DMP.to_brand_name(), "DM&P");
    assert_eq!(CpuBrand::Hygon.to_brand_name(), "Hygon");
    assert_eq!(CpuBrand::IDT.to_brand_name(), "IDT");
    assert_eq!(CpuBrand::Intel.to_brand_name(), "Intel");
    assert_eq!(
        CpuBrand::NationalSemiconductor.to_brand_name(),
        "National Semiconductor"
    );
    assert_eq!(CpuBrand::NexGen.to_brand_name(), "NexGen");
    assert_eq!(CpuBrand::Rise.to_brand_name(), "Rise");
    assert_eq!(CpuBrand::SiS.to_brand_name(), "SiS");
    assert_eq!(CpuBrand::Transmeta.to_brand_name(), "Transmeta");
    assert_eq!(CpuBrand::Umc.to_brand_name(), "UMC");
    assert_eq!(CpuBrand::Via.to_brand_name(), "Via");
    assert_eq!(CpuBrand::Zhaoxin.to_brand_name(), "Zhaoxin");
    assert_eq!(CpuBrand::Unknown.to_brand_name(), UNK);
}

#[test]
fn test_from_str_for_cpu_brand() {
    assert_eq!(CpuBrand::from(VENDOR_AMD), CpuBrand::AMD);
    assert_eq!(CpuBrand::from(VENDOR_CYRIX), CpuBrand::Cyrix);
    assert_eq!(CpuBrand::from(VENDOR_DMP), CpuBrand::DMP);
    assert_eq!(CpuBrand::from(VENDOR_HYGON), CpuBrand::Hygon);
    assert_eq!(CpuBrand::from(VENDOR_INTEL), CpuBrand::Intel);
    assert_eq!(CpuBrand::from(VENDOR_NEXGEN), CpuBrand::NexGen);
    assert_eq!(CpuBrand::from(VENDOR_NSC), CpuBrand::NationalSemiconductor);
    assert_eq!(CpuBrand::from(VENDOR_RISE), CpuBrand::Rise);
    assert_eq!(CpuBrand::from(VENDOR_SIS), CpuBrand::SiS);
    assert_eq!(CpuBrand::from(VENDOR_TRANSMETA), CpuBrand::Transmeta);
    assert_eq!(CpuBrand::from(VENDOR_UMC), CpuBrand::Umc);
    assert_eq!(CpuBrand::from("SomeOtherVendor"), CpuBrand::Unknown);
}

#[test]
fn test_from_heapless_string_for_cpu_brand() {
    let amd_string: heapless::String<12> = heapless::String::from_str(VENDOR_AMD).unwrap();
    assert_eq!(CpuBrand::from(amd_string), CpuBrand::AMD);

    let unknown_string: heapless::String<12> = heapless::String::from_str("UNKNOWN_VEN").unwrap();
    assert_eq!(CpuBrand::from(unknown_string), CpuBrand::Unknown);
}

#[test]
fn unrecognized_strings_resolve_to_unknown() {
    // The shared Centaur string and the Zhaoxin string are not resolved here
    // either: the classifier re-derives those lineages from the family field.
    assert_eq!(CpuBrand::from(""), CpuBrand::Unknown);
    assert_eq!(CpuBrand::from("GenuineIntel "), CpuBrand::Unknown);
    assert_eq!(CpuBrand::from("genuineintel"), CpuBrand::Unknown);
    assert_eq!(CpuBrand::from(VENDOR_CENTAUR), CpuBrand::Unknown);
    assert_eq!(CpuBrand::from("  Shanghai  "), CpuBrand::Unknown);
}

#[test]
fn vendor_str_reads_the_vendor_leaf() {
    let p = intel_probe();
    // A round trip through the 12-byte bounded string: the contents must be
    // the leaf's characters, not the argument handed to the converter.
    assert_eq!(CpuBrand::vendor_str(&p).as_str(), "GenuineIntel");
    assert_eq!(CpuBrand::detect(&p), CpuBrand::Intel);
}

#[test]
fn vendor_str_skips_embedded_zero_bytes() {
    let mut p = Probe::default();
    p.has_cpuid = true;
    p.leaf0 = CpuInfo::new(0, 0x43004241, 0x484746, 0x45000044);
    assert_eq!(CpuBrand::vendor_str(&p).as_str(), "ABCDEFGH");
}

#[test]
fn vendor_str_synthesizes_the_legacy_vendor() {
    let mut p = Probe::default();
    p.is_cyrix = true;
    // No identification instruction, but the division side channel fired.
    assert_eq!(CpuBrand::vendor_str(&p).as_str(), VENDOR_CYRIX);
    assert_eq!(CpuBrand::detect(&p), CpuBrand::Cyrix);
}

#[test]
fn vendor_unknown_without_any_signal() {
    let p = Probe::default();
    assert_eq!(CpuBrand::vendor_str(&p).as_str(), "");
    assert_eq!(CpuBrand::detect(&p), CpuBrand::Unknown);
}
