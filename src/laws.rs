use vstd::prelude::*;
use crate::elf::{ElfTablesView, elf_marker_offset, elf_patch, is_marker_symbol, marker_addend_from};
use crate::marker::{PatchError, PatchFailure, bytes_after, marker_in_range, patched};
use crate::object::binary_patch_done;
use crate::package::{ExecutableFormat, PackageType, marker_code};
use crate::pe::{PeTablesView, le_u64_at, pe_marker_offset, pe_patch, section_from};

verus! {

/// `after` is `before` with the three bytes at `offset` set to `code`: same
/// length, the code at the marker, every other byte as it was.
pub open spec fn writes_marker(before: Seq<u8>, after: Seq<u8>, offset: int, code: Seq<u8>) -> bool {
    &&& after.len() == before.len()
    &&& after.subrange(offset, offset + 3) == code
    &&& forall|i: int| 0 <= i < before.len() && !(offset <= i < offset + 3) ==> after[i] == before[i]
}

proof fn lemma_patched_writes_marker(data: Seq<u8>, offset: int, code: Seq<u8>)
    requires
        marker_in_range(data, offset),
        code.len() == 3,
    ensures
        writes_marker(data, patched(data, offset, code), offset, code),
{
    assert(patched(data, offset, code).subrange(offset, offset + 3) =~= code);
}

proof fn lemma_marker_code_len(format: ExecutableFormat, package: PackageType)
    ensures
        marker_code(format, package) matches Some(code) ==> code.len() == 3,
{
}

/// Patching an ELF image whose marker symbol has a matching dynamic
/// relocation, resolving inside the file, for a package type that applies
/// to ELF sets the three bytes at the resolved offset to the type's code and
/// leaves every other byte unchanged.
pub proof fn elf_patch_sets_marker(t: ElfTablesView, data: Seq<u8>, package: PackageType, offset: int, code: Seq<u8>)
    requires
        elf_marker_offset(t) == Ok::<int, PatchFailure>(offset),
        marker_in_range(data, offset),
        marker_code(ExecutableFormat::Elf, package) == Some(code),
    ensures
        elf_patch(t, data, package) matches Ok(after) && writes_marker(data, after, offset, code),
{
    lemma_marker_code_len(ExecutableFormat::Elf, package);
    lemma_patched_writes_marker(data, offset, code);
}

/// Patching a PE image whose `.taubndl` pointer resolves through `.rdata` to
/// an offset inside the file, for a package type that applies to PE, sets
/// the three bytes there to the type's code and leaves every other byte unchanged.
pub proof fn pe_patch_sets_marker(t: PeTablesView, data: Seq<u8>, package: PackageType, offset: int, code: Seq<u8>)
    requires
        pe_marker_offset(t, data) == Ok::<int, PatchFailure>(offset),
        marker_in_range(data, offset),
        marker_code(ExecutableFormat::Pe, package) == Some(code),
    ensures
        pe_patch(t, data, package) matches Ok(after) && writes_marker(data, after, offset, code),
{
    lemma_marker_code_len(ExecutableFormat::Pe, package);
    lemma_patched_writes_marker(data, offset, code);
}

proof fn lemma_patch_again(data: Seq<u8>, offset: int, code: Seq<u8>)
    requires
        marker_in_range(data, offset),
        code.len() == 3,
    ensures
        patched(patched(data, offset, code), offset, code) == patched(data, offset, code),
{
    assert(patched(patched(data, offset, code), offset, code) =~= patched(data, offset, code));
}

/// Patching an ELF image twice for the same package type leaves the same
/// bytes as patching it once.
pub proof fn elf_patch_idempotent(t: ElfTablesView, data: Seq<u8>, package: PackageType)
    ensures
        ({
            let once = bytes_after(elf_patch(t, data, package), data);
            bytes_after(elf_patch(t, once, package), once) == once
        }),
{
    lemma_marker_code_len(ExecutableFormat::Elf, package);
    if let Ok(offset) = elf_marker_offset(t) {
        if marker_in_range(data, offset) {
            if let Some(code) = marker_code(ExecutableFormat::Elf, package) {
                lemma_patch_again(data, offset, code);
            }
        }
    }
}

/// The file offset of the pointer that the `.taubndl` section holds.
pub open spec fn pe_pointer_offset(t: PeTablesView) -> Option<int> {
    match section_from(t.sections, ".taubndl"@, 0) {
        Some(b) => Some(t.sections[b].pointer_to_raw_data as int),
        None => None,
    }
}

/// Patching a PE image twice for the same package type leaves the same
/// bytes as patching it once, where the marker text does not overlap the
/// eight pointer bytes that lead to it.
pub proof fn pe_patch_idempotent(t: PeTablesView, data: Seq<u8>, package: PackageType)
    requires
        pe_marker_offset(t, data) matches Ok(offset) ==> pe_pointer_offset(t) matches Some(raw)
            && (offset + 3 <= raw || raw + 8 <= offset),
    ensures
        ({
            let once = bytes_after(pe_patch(t, data, package), data);
            bytes_after(pe_patch(t, once, package), once) == once
        }),
{
    lemma_marker_code_len(ExecutableFormat::Pe, package);
    if let Ok(offset) = pe_marker_offset(t, data) {
        if marker_in_range(data, offset) {
            if let Some(code) = marker_code(ExecutableFormat::Pe, package) {
                let once = patched(data, offset, code);
                let raw = pe_pointer_offset(t).unwrap();
                assert(le_u64_at(once, raw) == le_u64_at(data, raw));
                assert(pe_marker_offset(t, once) == pe_marker_offset(t, data));
                lemma_patch_again(data, offset, code);
            }
        }
    }
}

/// Patching keeps the file's length, for both formats and whatever the outcome.
pub proof fn patch_keeps_length(elf: ElfTablesView, pe: PeTablesView, data: Seq<u8>, package: PackageType)
    ensures
        bytes_after(elf_patch(elf, data, package), data).len() == data.len(),
        bytes_after(pe_patch(pe, data, package), data).len() == data.len(),
{
}

/// A marker offset whose three bytes would pass the end of the file fails
/// with the out-of-range error, and no byte is written.
pub proof fn patch_out_of_range_fails(elf: ElfTablesView, pe: PeTablesView, data: Seq<u8>, package: PackageType)
    ensures
        elf_marker_offset(elf) matches Ok(offset) && offset + 3 > data.len()
            ==> elf_patch(elf, data, package) == Err::<Seq<u8>, PatchFailure>(PatchFailure::OutOfRange),
        pe_marker_offset(pe, data) matches Ok(offset) && offset + 3 > data.len()
            ==> pe_patch(pe, data, package) == Err::<Seq<u8>, PatchFailure>(PatchFailure::OutOfRange),
{
}

/// A package type that applies to ELF is refused for a PE image, and one
/// that applies to PE is refused for an ELF image, where the marker itself
/// resolves inside the file; no byte is written.
pub proof fn patch_wrong_platform_fails(elf: ElfTablesView, pe: PeTablesView, data: Seq<u8>, package: PackageType)
    ensures
        match pe_marker_offset(pe, data) {
            Ok(offset) => marker_code(ExecutableFormat::Elf, package) is Some && marker_in_range(data, offset)
                ==> pe_patch(pe, data, package) == Err::<Seq<u8>, PatchFailure>(PatchFailure::WrongPackageType),
            Err(_) => true,
        },
        match elf_marker_offset(elf) {
            Ok(offset) => marker_code(ExecutableFormat::Pe, package) is Some && marker_in_range(data, offset)
                ==> elf_patch(elf, data, package) == Err::<Seq<u8>, PatchFailure>(PatchFailure::WrongPackageType),
            Err(_) => true,
        },
{
}

proof fn lemma_no_marker_symbol(t: ElfTablesView, i: int)
    requires
        forall|j: int| 0 <= j < t.symbols.len() ==> !is_marker_symbol(#[trigger] t.symbols[j].name),
        0 <= i,
    ensures
        marker_addend_from(t, i) is None,
    decreases t.symbols.len() - i,
{
    if i < t.symbols.len() {
        lemma_no_marker_symbol(t, i + 1);
    }
}

proof fn lemma_no_section(sections: Seq<crate::pe::PeSectionView>, name: Seq<char>, k: int)
    requires
        forall|j: int| 0 <= j < sections.len() ==> (#[trigger] sections[j]).name != Some(name),
        0 <= k,
    ensures
        section_from(sections, name, k) is None,
    decreases sections.len() - k,
{
    if k < sections.len() {
        lemma_no_section(sections, name, k + 1);
    }
}

/// An ELF image with no symbol named `__TAURI_BUNDLE_TYPE`, or a PE image
/// with no `.taubndl` section, fails with the missing-marker error and no
/// byte is written.
pub proof fn patch_without_marker_fails(elf: ElfTablesView, pe: PeTablesView, data: Seq<u8>, package: PackageType)
    ensures
        (forall|j: int| 0 <= j < elf.symbols.len() ==> !is_marker_symbol(#[trigger] elf.symbols[j].name))
            ==> elf_patch(elf, data, package) == Err::<Seq<u8>, PatchFailure>(PatchFailure::MissingMarker),
        (forall|j: int| 0 <= j < pe.sections.len() ==> (#[trigger] pe.sections[j]).name != Some(".taubndl"@))
            ==> pe_patch(pe, data, package) == Err::<Seq<u8>, PatchFailure>(PatchFailure::MissingMarker),
{
    if forall|j: int| 0 <= j < elf.symbols.len() ==> !is_marker_symbol(#[trigger] elf.symbols[j].name) {
        lemma_no_marker_symbol(elf, 0);
    }
    if forall|j: int| 0 <= j < pe.sections.len() ==> (#[trigger] pe.sections[j]).name != Some(".taubndl"@) {
        lemma_no_section(pe.sections, ".taubndl"@, 0);
    }
}

/// Whatever the image holds, patching a whole file keeps its length, and a
/// patch that fails leaves every byte as it was.
pub proof fn binary_patch_keeps_length(r: Result<(), PatchError>, before: Seq<u8>, after: Seq<u8>, package: PackageType)
    requires
        binary_patch_done(r, before, after, package),
    ensures
        after.len() == before.len(),
        r is Err ==> after == before,
{
}

} // verus!
