use tauri_marker::marker::PatchError;
use tauri_marker::object::patch_binary_bytes;
use tauri_marker::package::PackageType;

const BASE: u64 = 0x1_4000_0000;

fn put16(d: &mut [u8], at: usize, v: u16) {
    d[at..at + 2].copy_from_slice(&v.to_le_bytes());
}

fn put32(d: &mut [u8], at: usize, v: u32) {
    d[at..at + 4].copy_from_slice(&v.to_le_bytes());
}

fn put64(d: &mut [u8], at: usize, v: u64) {
    d[at..at + 8].copy_from_slice(&v.to_le_bytes());
}

fn put_section(d: &mut [u8], at: usize, name: &[u8], virtual_address: u32, raw: u32) {
    d[at..at + name.len()].copy_from_slice(name);
    put32(d, at + 8, 0x100);
    put32(d, at + 12, virtual_address);
    put32(d, at + 16, 0x100);
    put32(d, at + 20, raw);
    put32(d, at + 36, 0x4000_0040);
}

/// A PE32+ image with a `.rdata` section holding "UNK" at file offset
/// 0x210 and a bundle section whose first eight bytes point at it.
fn minimal_pe(bundle_section: &[u8]) -> Vec<u8> {
    let mut d = vec![0u8; 0x400];
    d[0..2].copy_from_slice(b"MZ");
    put32(&mut d, 0x3c, 0x80);
    d[0x80..0x84].copy_from_slice(b"PE\0\0");
    let coff = 0x84;
    put16(&mut d, coff, 0x8664);
    put16(&mut d, coff + 2, 2);
    put16(&mut d, coff + 16, 240);
    put16(&mut d, coff + 18, 0x22);
    let opt = coff + 20;
    put16(&mut d, opt, 0x20b);
    put64(&mut d, opt + 24, BASE);
    put32(&mut d, opt + 32, 0x1000);
    put32(&mut d, opt + 36, 0x200);
    put32(&mut d, opt + 56, 0x4000);
    put32(&mut d, opt + 60, 0x200);
    put16(&mut d, opt + 68, 3);
    put32(&mut d, opt + 108, 16);
    let sections = opt + 240;
    put_section(&mut d, sections, b".rdata", 0x2000, 0x200);
    put_section(&mut d, sections + 40, bundle_section, 0x3000, 0x300);
    d[0x210..0x213].copy_from_slice(b"UNK");
    put64(&mut d, 0x300, BASE + 0x2000 + 0x10);
    d
}

#[test]
fn pe_image_is_patched_in_place() {
    let mut data = minimal_pe(b".taubndl");
    let before = data.clone();
    assert_eq!(patch_binary_bytes(&mut data, PackageType::Nsis), Ok(()));
    assert_eq!(&data[0x210..0x213], b"NSS");
    assert_eq!(data.len(), before.len());
    for i in (0..0x210).chain(0x213..data.len()) {
        assert_eq!(data[i], before[i]);
    }
}

#[test]
fn pe_image_patched_twice_is_stable() {
    let mut data = minimal_pe(b".taubndl");
    assert_eq!(patch_binary_bytes(&mut data, PackageType::WindowsMsi), Ok(()));
    let once = data.clone();
    assert_eq!(patch_binary_bytes(&mut data, PackageType::WindowsMsi), Ok(()));
    assert_eq!(data, once);
    assert_eq!(&data[0x210..0x213], b"MSI");
}

#[test]
fn pe_image_without_bundle_section_is_missing() {
    let mut data = minimal_pe(b".tauother");
    let before = data.clone();
    assert_eq!(patch_binary_bytes(&mut data, PackageType::Nsis), Err(PatchError::MissingBundleTypeVar));
    assert_eq!(data, before);
}

#[test]
fn pe_image_with_linux_package_type_is_rejected() {
    let mut data = minimal_pe(b".taubndl");
    let before = data.clone();
    let r = patch_binary_bytes(&mut data, PackageType::AppImage);
    assert_eq!(r, Err(PatchError::InvalidPackageType("appimage".to_string(), "windows".to_string())));
    assert_eq!(data, before);
}

/// An ELF64 shared object whose symbol `__TAURI_BUNDLE_TYPE` (value
/// 0x4000) has a dynamic relocation with addend 0x250, where "UNK" sits.
fn minimal_elf(symbol_name: &[u8]) -> Vec<u8> {
    let mut d = vec![0u8; 0x400];
    d[0..4].copy_from_slice(b"\x7fELF");
    d[4] = 2;
    d[5] = 1;
    d[6] = 1;
    put16(&mut d, 16, 3);
    put16(&mut d, 18, 0x3e);
    put32(&mut d, 20, 1);
    put64(&mut d, 32, 64);
    put64(&mut d, 40, 0x340);
    put16(&mut d, 52, 64);
    put16(&mut d, 54, 56);
    put16(&mut d, 56, 2);
    put16(&mut d, 58, 64);
    put16(&mut d, 60, 3);
    // PT_LOAD mapping the whole file at address 0
    put32(&mut d, 64, 1);
    put32(&mut d, 68, 4);
    put64(&mut d, 64 + 32, 0x400);
    put64(&mut d, 64 + 40, 0x400);
    put64(&mut d, 64 + 48, 0x1000);
    // PT_DYNAMIC at 0x100
    let ph = 64 + 56;
    put32(&mut d, ph, 2);
    put32(&mut d, ph + 4, 4);
    put64(&mut d, ph + 8, 0x100);
    put64(&mut d, ph + 16, 0x100);
    put64(&mut d, ph + 24, 0x100);
    put64(&mut d, ph + 32, 0x40);
    put64(&mut d, ph + 40, 0x40);
    put64(&mut d, ph + 48, 8);
    // DT_RELA, DT_RELASZ, DT_RELAENT, DT_NULL
    put64(&mut d, 0x100, 7);
    put64(&mut d, 0x108, 0x180);
    put64(&mut d, 0x110, 8);
    put64(&mut d, 0x118, 24);
    put64(&mut d, 0x120, 9);
    put64(&mut d, 0x128, 24);
    // one R_X86_64_RELATIVE relocation at 0x4000
    put64(&mut d, 0x180, 0x4000);
    put64(&mut d, 0x188, 8);
    put64(&mut d, 0x190, 0x250);
    // symbol table: the null symbol, then the marker
    put32(&mut d, 0x1d8, 1);
    d[0x1dc] = 0x11;
    put64(&mut d, 0x1e0, 0x4000);
    put64(&mut d, 0x1e8, 8);
    d[0x201..0x201 + symbol_name.len()].copy_from_slice(symbol_name);
    d[0x250..0x253].copy_from_slice(b"UNK");
    // section headers: null, .symtab, .strtab
    let sh = 0x380;
    put32(&mut d, sh + 4, 2);
    put64(&mut d, sh + 24, 0x1c0);
    put64(&mut d, sh + 32, 48);
    put32(&mut d, sh + 40, 2);
    put32(&mut d, sh + 44, 1);
    put64(&mut d, sh + 48, 8);
    put64(&mut d, sh + 56, 24);
    let st = sh + 64;
    put32(&mut d, st + 4, 3);
    put64(&mut d, st + 24, 0x200);
    put64(&mut d, st + 32, 0x20);
    put64(&mut d, st + 48, 1);
    d
}

#[test]
fn elf_image_is_patched_in_place() {
    let mut data = minimal_elf(b"__TAURI_BUNDLE_TYPE");
    let before = data.clone();
    assert_eq!(patch_binary_bytes(&mut data, PackageType::Deb), Ok(()));
    assert_eq!(&data[0x250..0x253], b"DEB");
    for i in (0..0x250).chain(0x253..data.len()) {
        assert_eq!(data[i], before[i]);
    }
}

#[test]
fn elf_image_without_marker_symbol_is_missing() {
    let mut data = minimal_elf(b"__TAURI_BUNDLE_TYPX");
    let before = data.clone();
    assert_eq!(patch_binary_bytes(&mut data, PackageType::Rpm), Err(PatchError::MissingBundleTypeVar));
    assert_eq!(data, before);
}

#[test]
fn elf_image_with_windows_package_type_is_rejected() {
    let mut data = minimal_elf(b"__TAURI_BUNDLE_TYPE");
    let before = data.clone();
    let r = patch_binary_bytes(&mut data, PackageType::WindowsMsi);
    assert_eq!(r, Err(PatchError::InvalidPackageType("msi".to_string(), "linux".to_string())));
    assert_eq!(data, before);
}

#[test]
fn pe_image_with_tls_data_past_the_end_is_patched() {
    let mut data = minimal_pe(b".taubndl");
    // TLS directory entry pointing at 0x3020 (file offset 0x320), whose raw
    // data range runs far past the end of the file.
    put32(&mut data, 0x98 + 112 + 9 * 8, 0x3020);
    put32(&mut data, 0x98 + 112 + 9 * 8 + 4, 40);
    put64(&mut data, 0x320, BASE + 0x2000);
    put64(&mut data, 0x328, BASE + 0x2000 + 0x10_0000);
    assert_eq!(patch_binary_bytes(&mut data, PackageType::Nsis), Ok(()));
    assert_eq!(&data[0x210..0x213], b"NSS");
}
