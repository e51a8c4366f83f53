//! Classification tests: lineage names, the table rows of each vendor, and
//! the first-match-wins engine itself on synthetic rows.

use rustid::brand::{
    UNK, VENDOR_CENTAUR, VENDOR_CYRIX, VENDOR_DMP, VENDOR_RISE, VENDOR_TRANSMETA, VENDOR_UMC,
};
use rustid::cpu::CpuSignature;
use rustid::micro_arch::{CpuArch, Guard, MicroArch, Row, first_match_index};

// Helper to create a signature from the five raw fields.
fn dummy_signature(
    family: u32,
    model: u32,
    ext_family: u32,
    ext_model: u32,
    stepping: u32,
) -> CpuSignature {
    CpuSignature {
        extended_family: ext_family,
        family,
        extended_model: ext_model,
        model,
        stepping,
        display_family: family, // Simplified for tests
        display_model: model,   // Simplified for tests
        is_overdrive: false,
    }
}

#[test]
fn test_micro_arch_from_string() {
    assert_eq!(MicroArch::Am486.name(), "Am486");
    assert_eq!(MicroArch::ZenPlus.name(), "Zen+");
    assert_eq!(MicroArch::Winchip.name(), "Winchip");
    assert_eq!(MicroArch::Lujiazui.name(), "LuJiaZui");
    assert_eq!(MicroArch::FiveX86.name(), "5x86");
    assert_eq!(MicroArch::VortexDX3.name(), "VortexDX3");
    assert_eq!(MicroArch::I486.name(), "I486");
    assert_eq!(MicroArch::Crusoe.name(), "Crusoe");
    assert_eq!(MicroArch::U5S.name(), "U5S");
    assert_eq!(MicroArch::Unknown.name(), "Unknown");
}

#[test]
fn test_micro_arch_udebug() {
    let s = format!("{:?}", MicroArch::Zen);
    assert_eq!(s.as_str(), "Zen");

    let s = format!("{:?}", MicroArch::Unknown);
    assert_eq!(s.as_str(), "Unknown");

    let s = format!("{:?}", MicroArch::Am486);
    assert_eq!(s.as_str(), "Am486");

    // Test a non-specific case
    let s = format!("{:?}", MicroArch::K5);
    assert_eq!(s.as_str(), "K5");
}

#[test]
fn test_cpu_arch_new() {
    let arch = CpuArch::new(
        "Test Model",
        MicroArch::Zen,
        "Test Codename",
        "Test Brand",
        "Test Vendor",
        None,
    );
    assert_eq!(arch.model.as_str(), "Test Model");
    assert_eq!(arch.micro_arch, MicroArch::Zen);
    assert_eq!(arch.code_name, "Test Codename");
    assert_eq!(arch.brand_name.as_str(), "Test Brand");
    assert_eq!(arch.vendor_string.as_str(), "Test Vendor");
    assert!(arch.technology.is_none());
}

#[test]
fn arch_keeps_the_process_node_of_the_matched_row() {
    let arch = CpuArch::new(
        "Test Model",
        MicroArch::Zen,
        "Test Codename",
        "Test Brand",
        "Test Vendor",
        Some("350nm"),
    );
    // A round trip through the 32-byte bounded string.
    assert_eq!(arch.technology.unwrap().as_str(), "350nm");
}

#[test]
fn test_cpu_arch_find_amd() {
    let model = "AMD Processor";

    // Am486
    let sig_am486 = dummy_signature(4, 3, 0, 0, 0);
    let arch = CpuArch::find_amd(model, sig_am486);
    assert_eq!(arch.micro_arch, MicroArch::Am486);
    assert_eq!(arch.code_name, "Am486DX2");

    // K5
    let sig_k5 = dummy_signature(5, 1, 0, 0, 0);
    let arch = CpuArch::find_amd(model, sig_k5);
    assert_eq!(arch.micro_arch, MicroArch::K5);
    assert_eq!(arch.code_name, "5k86");

    // Zen4
    let sig_zen4 = dummy_signature(15, 1, 10, 6, 2);
    let arch = CpuArch::find_amd(model, sig_zen4);
    assert_eq!(arch.micro_arch, MicroArch::Zen4);
    assert_eq!(arch.code_name, "Raphael");

    // Unknown AMD
    let sig_unknown = dummy_signature(99, 0, 0, 0, 0);
    let arch = CpuArch::find_amd(model, sig_unknown);
    assert_eq!(arch.micro_arch, MicroArch::Unknown);
    assert_eq!(arch.code_name, UNK);
}

#[test]
fn test_cpu_arch_find_intel() {
    let model = "Intel Processor";

    // I486
    let sig_i486 = dummy_signature(4, 0, 0, 0, 0);
    let arch = CpuArch::find_intel(model, sig_i486);
    assert_eq!(arch.micro_arch, MicroArch::I486);
    assert_eq!(arch.code_name, "i80486DX");

    // P5 (Pentium)
    let sig_p5 = dummy_signature(5, 2, 0, 0, 0);
    let arch = CpuArch::find_intel(model, sig_p5);
    assert_eq!(arch.micro_arch, MicroArch::P5);
    assert_eq!(arch.code_name, "P54C");

    // Nehalem
    let sig_nehalem = dummy_signature(6, 14, 0, 1, 5);
    let arch = CpuArch::find_intel(model, sig_nehalem);
    assert_eq!(arch.micro_arch, MicroArch::Nehalem);
    assert_eq!(arch.code_name, "Lynnfield");

    // Unknown Intel
    let sig_unknown = dummy_signature(99, 0, 0, 0, 0);
    let arch = CpuArch::find_intel(model, sig_unknown);
    assert_eq!(arch.micro_arch, MicroArch::Unknown);
    assert_eq!(arch.code_name, UNK);
}

#[test]
fn test_cpu_arch_find_centaur() {
    let model = "Centaur Processor";
    let vendor_str = VENDOR_CENTAUR;

    // IDT Winchip
    let sig_winchip = dummy_signature(5, 4, 0, 0, 0);
    let arch = CpuArch::find_centaur(model, sig_winchip, vendor_str);
    assert_eq!(arch.micro_arch, MicroArch::Winchip);
    assert_eq!(arch.code_name, "C6");

    // VIA Ezra
    let sig_ezra = dummy_signature(6, 7, 0, 0, 8);
    let arch = CpuArch::find_centaur(model, sig_ezra, vendor_str);
    assert_eq!(arch.micro_arch, MicroArch::Ezra);
    assert_eq!(arch.code_name, "Ezra (C5C)");

    // Zhaoxin Lujiazui
    let sig_lujiazui = dummy_signature(7, 11, 0, 3, 0);
    let arch = CpuArch::find_centaur(model, sig_lujiazui, vendor_str);
    assert_eq!(arch.micro_arch, MicroArch::Lujiazui);
    assert_eq!(arch.code_name, "LuJiaZui");

    // Unknown Centaur
    let sig_unknown = dummy_signature(99, 0, 0, 0, 0);
    let arch = CpuArch::find_centaur(model, sig_unknown, vendor_str);
    assert_eq!(arch.micro_arch, MicroArch::Unknown);
    assert_eq!(arch.code_name, UNK);
}

#[test]
fn test_cpu_arch_find_dmp() {
    let model = "DMP Processor";
    let vendor_str = VENDOR_DMP;

    // VortexDX3
    let sig_vortex = dummy_signature(6, 1, 0, 0, 1);
    let arch = CpuArch::find(model, sig_vortex, vendor_str);
    assert_eq!(arch.micro_arch, MicroArch::VortexDX3);
    assert_eq!(arch.code_name, "Vortex86DX3");

    // Unknown DMP
    let sig_unknown = dummy_signature(99, 0, 0, 0, 0);
    let arch = CpuArch::find(model, sig_unknown, vendor_str);
    assert_eq!(arch.micro_arch, MicroArch::Unknown);
    assert_eq!(arch.code_name, UNK);
}

#[test]
fn test_cpu_arch_find_cyrix() {
    let model = "Cyrix Processor";
    let vendor_str = VENDOR_CYRIX;

    // FiveX86
    let sig_fivex86 = dummy_signature(4, 9, 0, 0, 0);
    let arch = CpuArch::find(model, sig_fivex86, vendor_str);
    assert_eq!(arch.micro_arch, MicroArch::FiveX86);
    assert_eq!(arch.code_name, "5x86");

    // M2
    let sig_m2 = dummy_signature(6, 0, 0, 0, 0);
    let arch = CpuArch::find(model, sig_m2, vendor_str);
    assert_eq!(arch.micro_arch, MicroArch::M2);
    assert_eq!(arch.code_name, "M2");

    // Unknown Cyrix
    let sig_unknown = dummy_signature(99, 0, 0, 0, 0);
    let arch = CpuArch::find(model, sig_unknown, vendor_str);
    assert_eq!(arch.micro_arch, MicroArch::Unknown);
    assert_eq!(arch.code_name, UNK);
}

#[test]
fn test_cpu_arch_find_rise() {
    let model = "Rise Processor";
    let vendor_str = VENDOR_RISE;

    // MP6
    let sig_mp6 = dummy_signature(5, 0, 0, 0, 0);
    let arch = CpuArch::find(model, sig_mp6, vendor_str);
    assert_eq!(arch.micro_arch, MicroArch::MP6);
    assert_eq!(arch.code_name, "Kirin");

    // Unknown Rise
    let sig_unknown = dummy_signature(99, 0, 0, 0, 0);
    let arch = CpuArch::find(model, sig_unknown, vendor_str);
    assert_eq!(arch.micro_arch, MicroArch::Unknown);
    assert_eq!(arch.code_name, UNK);
}

#[test]
fn test_cpu_arch_find_umc_transmeta() {
    let model = "Processor";

    // UMC U5D
    let umc_vendor_str = VENDOR_UMC;
    let sig_u5d = dummy_signature(4, 1, 0, 0, 0);
    let arch = CpuArch::find(model, sig_u5d, umc_vendor_str);
    assert_eq!(arch.micro_arch, MicroArch::U5D);
    assert_eq!(arch.code_name, "U5D");

    // Transmeta Crusoe
    let transmeta_vendor_str = VENDOR_TRANSMETA;
    let sig_crusoe = dummy_signature(5, 4, 0, 0, 0);
    let arch = CpuArch::find(model, sig_crusoe, transmeta_vendor_str);
    assert_eq!(arch.micro_arch, MicroArch::Crusoe);
    assert_eq!(arch.code_name, "Crusoe");

    // Unknown Umc/Transmeta
    let sig_unknown = dummy_signature(99, 0, 0, 0, 0);
    let arch = CpuArch::find(model, sig_unknown, umc_vendor_str);
    assert_eq!(arch.micro_arch, MicroArch::Unknown);
    assert_eq!(arch.code_name, UNK);
}

#[test]
fn test_cpu_arch_find_unknown_brand() {
    let model = "Unknown Processor";
    let vendor_str = "UnknownVendor"; // Not one of the known constants
    let sig = dummy_signature(1, 1, 1, 1, 1);

    let arch = CpuArch::find(model, sig, vendor_str);
    assert_eq!(arch.micro_arch, MicroArch::Unknown);
    assert_eq!(arch.code_name, UNK);
    assert_eq!(arch.brand_name.as_str(), "Unknown");
}

#[test]
fn raven_ridge_is_classified_as_zen() {
    // The AMD identifying string with extended_family 8, family 15,
    // extended_model 1, model 1, stepping 0.
    let sig = dummy_signature(15, 1, 8, 1, 0);
    let arch = CpuArch::find("AMD Processor", sig, "AuthenticAMD");
    assert_eq!(arch.micro_arch, MicroArch::Zen);
    assert_eq!(arch.micro_arch.name(), "Zen");
    assert_eq!(arch.code_name, "RavenRidge");
    assert_eq!(arch.technology.unwrap().as_str(), "14nm");
}

#[test]
fn early_p6_steppings_are_classified_as_p6() {
    // The Intel identifying string with family 6, extended_model 0, model 1,
    // and any of the steppings the pro rows cover.
    for &stepping in &[1u32, 2, 6, 7, 8, 9] {
        let sig = dummy_signature(6, 1, 0, 0, stepping);
        let arch = CpuArch::find("Intel Processor", sig, "GenuineIntel");
        assert_eq!(arch.micro_arch, MicroArch::P6Pro);
        assert_eq!(arch.code_name, "P6");
    }
}

#[test]
fn classification_is_deterministic() {
    let sig = dummy_signature(15, 1, 8, 1, 0);
    let a = CpuArch::find("m", sig, "AuthenticAMD");
    let b = CpuArch::find("m", sig, "AuthenticAMD");
    assert_eq!(a.micro_arch, b.micro_arch);
    assert_eq!(a.code_name, b.code_name);
    assert_eq!(a.model.as_str(), b.model.as_str());
    assert_eq!(a.brand_name.as_str(), b.brand_name.as_str());
    assert_eq!(a.vendor_string.as_str(), b.vendor_string.as_str());
    assert_eq!(
        a.technology.map(|t| String::from(t.as_str())),
        b.technology.map(|t| String::from(t.as_str()))
    );
}

#[test]
fn engine_first_full_match_wins() {
    // Two overlapping synthetic rows: the narrower one is listed first.
    let rows: Vec<Row> = vec![
        Row {
            extended_family: Guard::Is(0),
            family: Guard::Is(5),
            extended_model: Guard::Any,
            model: Guard::Between(0, 3),
            stepping: Guard::Any,
            micro_arch: MicroArch::K5,
            code_name: "Narrow",
            technology: None,
        },
        Row {
            extended_family: Guard::Any,
            family: Guard::Is(5),
            extended_model: Guard::Any,
            model: Guard::Any,
            stepping: Guard::Any,
            micro_arch: MicroArch::K6,
            code_name: "Broad",
            technology: None,
        },
    ];
    // Both rows match: the first listed wins.
    assert_eq!(first_match_index(&rows, &dummy_signature(5, 2, 0, 0, 0)), Some(0));
    // Only the broad row matches.
    assert_eq!(first_match_index(&rows, &dummy_signature(5, 9, 0, 0, 0)), Some(1));
    // No row matches.
    assert_eq!(first_match_index(&rows, &dummy_signature(4, 2, 0, 0, 0)), None);

    let hit = CpuArch::find_in_table(&rows, "m", &dummy_signature(5, 2, 0, 0, 0), "b", "v");
    assert_eq!(hit.code_name, "Narrow");
    assert_eq!(hit.micro_arch, MicroArch::K5);
}

#[test]
fn engine_falls_back_to_the_catch_all() {
    let rows: Vec<Row> = vec![Row {
        extended_family: Guard::Is(0),
        family: Guard::Is(4),
        extended_model: Guard::Any,
        model: Guard::Either(1, 2),
        stepping: Guard::Any,
        micro_arch: MicroArch::I486,
        code_name: "Only",
        technology: None,
    }];
    let miss = CpuArch::find_in_table(&rows, "m", &dummy_signature(9, 9, 9, 9, 9), "b", "v");
    assert_eq!(miss.micro_arch, MicroArch::Unknown);
    assert_eq!(miss.code_name, UNK);
    assert!(miss.technology.is_none());
}

#[test]
fn default_arch_is_the_unknown_entry() {
    let arch = CpuArch::default();
    assert_eq!(arch.model.as_str(), "Unknown");
    assert_eq!(arch.micro_arch, MicroArch::Unknown);
    assert_eq!(arch.code_name, UNK);
    assert_eq!(arch.brand_name.as_str(), "Unknown");
    assert_eq!(arch.vendor_string.as_str(), "Unknown");
    assert!(arch.technology.is_none());
}
