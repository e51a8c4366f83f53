//! Decoding tests for the ARM main ID register and the PowerPC processor
//! version register.

use rustid::arm;
use rustid::ppc;

#[test]
fn midr_fields_are_sliced_exactly() {
    // Implementer 0x41, variant 0x2, architecture 0xF, part 0xD08,
    // revision 0x3: a Cortex-A72-shaped register value.
    let midr: usize = 0x412FD083;
    assert_eq!(arm::midr_get_implementer(midr), 0x41);
    assert_eq!(arm::midr_get_variant(midr), 0x2);
    assert_eq!(arm::midr_get_architecture(midr), 0xF);
    assert_eq!(arm::midr_get_part(midr), 0xD08);
    assert_eq!(arm::midr_get_revision(midr), 0x3);
}

#[test]
fn midr_new_splits_the_word() {
    let midr = arm::Midr::new(0x412FD083);
    assert_eq!(midr.implementer, 0x41);
    assert_eq!(midr.variant, 0x2);
    assert_eq!(midr.architecture, 0xF);
    assert_eq!(midr.part, 0xD08);
    assert_eq!(midr.revision, 0x3);
}

#[test]
fn arm_cpu_narrows_the_fields() {
    let cpu = arm::Cpu::new(0x412FD083);
    assert_eq!(cpu.raw_midr, 0x412FD083);
    assert_eq!(cpu.implementer, 0x41u8);
    assert_eq!(cpu.variant, 0x2u8);
    assert_eq!(cpu.part_number, 0xD08u16);
    assert_eq!(cpu.revision, 0x3u8);
}

#[test]
fn arm_vendor_resolves_known_implementers() {
    assert_eq!(arm::Vendor::from(0x41usize), arm::Vendor::ARM);
    assert_eq!(arm::Vendor::from(0xB3usize), arm::Vendor::Apple);
    assert_eq!(arm::Vendor::from(0x99usize), arm::Vendor::Unknown);
    assert_eq!(arm::Vendor::ARM.name(), "ARM");
    assert_eq!(arm::Vendor::Apple.name(), "Apple");
    assert_eq!(arm::Vendor::Unknown.name(), "Unknown");
}

#[test]
fn pvr_splits_into_version_and_revision() {
    // A 750FX-shaped register value.
    let cpu = ppc::Cpu::new(0x70000203);
    assert_eq!(cpu.pvr, 0x70000203);
    assert_eq!(cpu.version, 0x7000);
    assert_eq!(cpu.revision, 0x0203);
}
