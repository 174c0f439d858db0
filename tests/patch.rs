use tauri_marker::elf::{find_bundle_type_symbol, patch_elf, ElfRelocation, ElfSymbol, ElfTables};
use tauri_marker::marker::{write_marker, PatchError};
use tauri_marker::object::patch_binary_bytes;
use tauri_marker::package::{ExecutableFormat, PackageType};
use tauri_marker::pe::{find_section, locate_pe_marker, patch_pe, read_u64_le, PeSection, PeTables};

fn symbol(name: &str, value: u64) -> ElfSymbol {
    ElfSymbol { name: Some(name.to_string()), value }
}

fn elf_tables(addend: Option<i64>) -> ElfTables {
    ElfTables {
        symbols: vec![symbol("main", 0x1000), symbol("__TAURI_BUNDLE_TYPE", 0x4000)],
        relocations: vec![
            ElfRelocation { offset: 0x3000, addend: Some(7) },
            ElfRelocation { offset: 0x4000, addend },
        ],
    }
}

fn filler(len: usize) -> Vec<u8> {
    (0..len).map(|i| (i % 251) as u8).collect()
}

#[test]
fn elf_marker_scenario_sets_deb() {
    let mut data = filler(600);
    let before = data.clone();
    let r = patch_elf(&mut data, &elf_tables(Some(512)), PackageType::Deb);
    assert_eq!(r, Ok(()));
    assert_eq!(&data[512..515], b"DEB");
    assert_eq!(data.len(), before.len());
    for i in (0..512).chain(515..600) {
        assert_eq!(data[i], before[i]);
    }
}

#[test]
fn elf_marker_rpm_and_appimage_codes() {
    let mut data = filler(600);
    assert_eq!(patch_elf(&mut data, &elf_tables(Some(100)), PackageType::Rpm), Ok(()));
    assert_eq!(&data[100..103], b"RPM");
    assert_eq!(patch_elf(&mut data, &elf_tables(Some(100)), PackageType::AppImage), Ok(()));
    assert_eq!(&data[100..103], b"APP");
}

#[test]
fn elf_marker_at_last_possible_offset() {
    let mut data = filler(515);
    assert_eq!(patch_elf(&mut data, &elf_tables(Some(512)), PackageType::Deb), Ok(()));
    assert_eq!(&data[512..515], b"DEB");
}

#[test]
fn elf_marker_past_end_is_out_of_range() {
    let mut data = filler(514);
    let before = data.clone();
    let r = patch_elf(&mut data, &elf_tables(Some(512)), PackageType::Deb);
    assert_eq!(r, Err(PatchError::BinaryOffsetOutOfRange));
    assert_eq!(data, before);
}

#[test]
fn elf_negative_addend_is_out_of_range() {
    let mut data = filler(600);
    let before = data.clone();
    let r = patch_elf(&mut data, &elf_tables(Some(-4)), PackageType::Deb);
    assert_eq!(r, Err(PatchError::BinaryOffsetOutOfRange));
    assert_eq!(data, before);
}

#[test]
fn elf_missing_addend_is_a_parse_error() {
    let mut data = filler(600);
    let before = data.clone();
    let r = patch_elf(&mut data, &elf_tables(None), PackageType::Deb);
    assert!(matches!(r, Err(PatchError::BinaryParseError(_))));
    assert_eq!(data, before);
}

#[test]
fn elf_without_marker_symbol_is_missing() {
    let mut data = filler(600);
    let before = data.clone();
    let mut tables = elf_tables(Some(512));
    tables.symbols[1].name = Some("__tauri_bundle_type".to_string());
    let r = patch_elf(&mut data, &tables, PackageType::Deb);
    assert_eq!(r, Err(PatchError::MissingBundleTypeVar));
    assert_eq!(data, before);
}

#[test]
fn elf_marker_without_relocation_is_missing() {
    let mut data = filler(600);
    let mut tables = elf_tables(Some(512));
    tables.relocations[1].offset = 0x4008;
    let r = patch_elf(&mut data, &tables, PackageType::Deb);
    assert_eq!(r, Err(PatchError::MissingBundleTypeVar));
}

#[test]
fn elf_later_marker_symbol_with_relocation_is_used() {
    let tables = ElfTables {
        symbols: vec![symbol("__TAURI_BUNDLE_TYPE", 0x10), symbol("__TAURI_BUNDLE_TYPE", 0x4000)],
        relocations: vec![
            ElfRelocation { offset: 0x4000, addend: Some(40) },
            ElfRelocation { offset: 0x4000, addend: Some(80) },
        ],
    };
    assert_eq!(find_bundle_type_symbol(&tables), Some(Some(40)));
    let mut data = filler(100);
    assert_eq!(patch_elf(&mut data, &tables, PackageType::Deb), Ok(()));
    assert_eq!(&data[40..43], b"DEB");
}

#[test]
fn elf_with_windows_package_type_is_rejected() {
    let mut data = filler(600);
    let before = data.clone();
    let r = patch_elf(&mut data, &elf_tables(Some(512)), PackageType::Nsis);
    assert_eq!(r, Err(PatchError::InvalidPackageType("nsis".to_string(), "linux".to_string())));
    assert_eq!(data, before);
}

#[test]
fn elf_patch_twice_equals_once() {
    let mut once = filler(600);
    patch_elf(&mut once, &elf_tables(Some(300)), PackageType::Rpm).unwrap();
    let mut twice = once.clone();
    patch_elf(&mut twice, &elf_tables(Some(300)), PackageType::Rpm).unwrap();
    assert_eq!(once, twice);
}

const IMAGE_BASE: u64 = 0x1_4000_0000;

fn section(name: &str, pointer_to_raw_data: u32, virtual_address: u32) -> PeSection {
    PeSection { name: Some(name.to_string()), pointer_to_raw_data, virtual_address }
}

fn pe_image(pointer: u64, len: usize) -> Vec<u8> {
    let mut data = filler(len);
    data[16..24].copy_from_slice(&pointer.to_le_bytes());
    data
}

fn pe_tables() -> PeTables {
    PeTables {
        sections: vec![section(".text", 0x400, 0x1000), section(".taubndl", 16, 0x5000), section(".rdata", 100, 0x2000)],
        image_base: IMAGE_BASE,
    }
}

#[test]
fn pe_pointer_is_read_little_endian() {
    let data = pe_image(0x0102_0304_0506_0708, 64);
    assert_eq!(read_u64_le(&data, 16), 0x0102_0304_0506_0708);
}

#[test]
fn pe_marker_resolves_through_rdata() {
    let data = pe_image(IMAGE_BASE + 0x2000 + 20, 200);
    assert_eq!(locate_pe_marker(&data, &pe_tables()), Ok(120));
    assert_eq!(find_section(&pe_tables().sections, ".rdata"), Some(2));
    assert_eq!(find_section(&pe_tables().sections, ".data"), None);
}

#[test]
fn pe_marker_nsis_and_msi_codes() {
    let mut data = pe_image(IMAGE_BASE + 0x2000 + 20, 200);
    let before = data.clone();
    assert_eq!(patch_pe(&mut data, &pe_tables(), PackageType::Nsis), Ok(()));
    assert_eq!(&data[120..123], b"NSS");
    for i in (0..120).chain(123..200) {
        assert_eq!(data[i], before[i]);
    }
    assert_eq!(patch_pe(&mut data, &pe_tables(), PackageType::WindowsMsi), Ok(()));
    assert_eq!(&data[120..123], b"MSI");
}

#[test]
fn pe_patch_twice_equals_once() {
    let mut once = pe_image(IMAGE_BASE + 0x2000 + 20, 200);
    patch_pe(&mut once, &pe_tables(), PackageType::Nsis).unwrap();
    let mut twice = once.clone();
    patch_pe(&mut twice, &pe_tables(), PackageType::Nsis).unwrap();
    assert_eq!(once, twice);
}

#[test]
fn pe_without_bundle_section_is_missing() {
    let mut data = pe_image(IMAGE_BASE + 0x2000 + 20, 200);
    let before = data.clone();
    let mut tables = pe_tables();
    tables.sections.remove(1);
    assert_eq!(patch_pe(&mut data, &tables, PackageType::Nsis), Err(PatchError::MissingBundleTypeVar));
    assert_eq!(data, before);
}

#[test]
fn pe_without_rdata_is_a_parse_error() {
    let mut data = pe_image(IMAGE_BASE + 0x2000 + 20, 200);
    let mut tables = pe_tables();
    tables.sections.remove(2);
    assert!(matches!(patch_pe(&mut data, &tables, PackageType::Nsis), Err(PatchError::BinaryParseError(_))));
}

#[test]
fn pe_pointer_below_image_base_is_a_parse_error() {
    let mut data = pe_image(0x2000, 200);
    assert!(matches!(patch_pe(&mut data, &pe_tables(), PackageType::Nsis), Err(PatchError::BinaryParseError(_))));
}

#[test]
fn pe_address_below_rdata_is_a_parse_error() {
    let mut data = pe_image(IMAGE_BASE + 0x1000, 200);
    let before = data.clone();
    assert!(matches!(patch_pe(&mut data, &pe_tables(), PackageType::Nsis), Err(PatchError::BinaryParseError(_))));
    assert_eq!(data, before);
}

#[test]
fn pe_pointer_past_end_is_out_of_range() {
    let mut data = filler(20);
    assert_eq!(patch_pe(&mut data, &pe_tables(), PackageType::Nsis), Err(PatchError::BinaryOffsetOutOfRange));
}

#[test]
fn pe_marker_past_end_is_out_of_range() {
    let mut data = pe_image(IMAGE_BASE + 0x2000 + 98, 200);
    let before = data.clone();
    assert_eq!(patch_pe(&mut data, &pe_tables(), PackageType::Nsis), Err(PatchError::BinaryOffsetOutOfRange));
    assert_eq!(data, before);
}

#[test]
fn pe_marker_offset_beyond_u64_is_out_of_range() {
    let mut data = pe_image(u64::MAX, 200);
    let tables = PeTables { image_base: 0, ..pe_tables() };
    let mut tables = tables;
    tables.sections[2].pointer_to_raw_data = u32::MAX;
    tables.sections[2].virtual_address = 0;
    assert_eq!(patch_pe(&mut data, &tables, PackageType::Nsis), Err(PatchError::BinaryOffsetOutOfRange));
}

#[test]
fn pe_with_linux_package_type_is_rejected() {
    let mut data = pe_image(IMAGE_BASE + 0x2000 + 20, 200);
    let before = data.clone();
    let r = patch_pe(&mut data, &pe_tables(), PackageType::Deb);
    assert_eq!(r, Err(PatchError::InvalidPackageType("deb".to_string(), "windows".to_string())));
    assert_eq!(data, before);
}

#[test]
fn writer_checks_range_before_package_type() {
    let mut data = filler(10);
    assert_eq!(write_marker(&mut data, 8, ExecutableFormat::Pe, PackageType::Deb), Err(PatchError::BinaryOffsetOutOfRange));
    assert_eq!(write_marker(&mut data, u64::MAX, ExecutableFormat::Elf, PackageType::Deb), Err(PatchError::BinaryOffsetOutOfRange));
    assert_eq!(write_marker(&mut data, 7, ExecutableFormat::Elf, PackageType::Deb), Ok(()));
    assert_eq!(&data[7..10], b"DEB");
}

#[test]
fn short_input_is_a_parse_error() {
    let mut data = b"MZ".to_vec();
    let r = patch_binary_bytes(&mut data, PackageType::Nsis);
    assert!(matches!(r, Err(PatchError::BinaryParseError(_))));
    assert_eq!(data, b"MZ".to_vec());
}

#[test]
fn truncated_elf_is_a_parse_error() {
    let mut data = vec![0u8; 32];
    data[..4].copy_from_slice(b"\x7fELF");
    data[4] = 2;
    data[5] = 1;
    let before = data.clone();
    let r = patch_binary_bytes(&mut data, PackageType::Deb);
    assert!(matches!(r, Err(PatchError::BinaryParseError(_))));
    assert_eq!(data, before);
}

#[test]
fn unknown_container_is_unsupported() {
    let mut data = vec![0u8; 64];
    let r = patch_binary_bytes(&mut data, PackageType::Deb);
    assert_eq!(r, Err(PatchError::UnsupportedFormat));
    assert_eq!(data, vec![0u8; 64]);
}

#[test]
fn package_short_names() {
    assert_eq!(PackageType::Deb.short_name(), "deb");
    assert_eq!(PackageType::AppImage.short_name(), "appimage");
    assert_eq!(PackageType::WindowsMsi.short_name(), "msi");
    assert_eq!(PackageType::Nsis.short_name(), "nsis");
}
