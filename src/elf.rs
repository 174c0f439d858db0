use vstd::prelude::*;
use crate::marker::{PatchError, PatchFailure, marker_patch, carries_out, write_marker};
use crate::package::{ExecutableFormat, PackageType};

verus! {

/// A symbol-table entry: its name as resolved through the string table
/// (`None` where the string table has no name at that index) and its value.
#[derive(Debug, Clone, PartialEq, Eq)]
pub struct ElfSymbol {
    pub name: Option<String>,
    pub value: u64,
}

/// A symbol as the marker search sees it: the name's characters and the value.
pub struct ElfSymbolView {
    pub name: Option<Seq<char>>,
    pub value: u64,
}

impl View for ElfSymbol {
    type V = ElfSymbolView;

    open spec fn view(&self) -> ElfSymbolView {
        ElfSymbolView {
            name: match self.name {
                Some(n) => Some(n@),
                None => None,
            },
            value: self.value,
        }
    }
}

/// A dynamic relocation with an explicit addend.
#[derive(Debug, Clone, Copy, PartialEq, Eq, Structural)]
pub struct ElfRelocation {
    pub offset: u64,
    pub addend: Option<i64>,
}

/// The parts of an ELF image that locate the bundle-type marker.
#[derive(Debug, Clone, PartialEq, Eq)]
pub struct ElfTables {
    pub symbols: Vec<ElfSymbol>,
    pub relocations: Vec<ElfRelocation>,
}

/// The tables of an ELF image as plain values.
pub struct ElfTablesView {
    pub symbols: Seq<ElfSymbolView>,
    pub relocations: Seq<ElfRelocation>,
}

impl View for ElfTables {
    type V = ElfTablesView;

    open spec fn view(&self) -> ElfTablesView {
        ElfTablesView {
            symbols: self.symbols@.map_values(|s: ElfSymbol| s@),
            relocations: self.relocations@,
        }
    }
}

/// The name of the symbol that marks the bundle-type slot.
pub open spec fn is_marker_symbol(name: Option<Seq<char>>) -> bool {
    name == Some("__TAURI_BUNDLE_TYPE"@)
}

/// The index of the first relocation at or after `k` whose offset is `address`.
pub open spec fn relocation_from(relocations: Seq<ElfRelocation>, address: u64, k: int) -> Option<int>
    decreases relocations.len() - k,
{
    if k >= relocations.len() {
        None
    } else if relocations[k].offset == address {
        Some(k)
    } else {
        relocation_from(relocations, address, k + 1)
    }
}

/// Scanning the symbols from index `i`: the addend of the relocation found for
/// the first marker symbol that has one, or `None` where no such symbol exists.
pub open spec fn marker_addend_from(t: ElfTablesView, i: int) -> Option<Option<i64>>
    decreases t.symbols.len() - i,
{
    if i >= t.symbols.len() {
        None
    } else if is_marker_symbol(t.symbols[i].name) {
        match relocation_from(t.relocations, t.symbols[i].value, 0) {
            Some(k) => Some(t.relocations[k].addend),
            None => marker_addend_from(t, i + 1),
        }
    } else {
        marker_addend_from(t, i + 1)
    }
}

/// The file offset of the marker in an ELF image with tables `t`: the addend
/// of the dynamic relocation that targets the marker symbol.
pub open spec fn elf_marker_offset(t: ElfTablesView) -> Result<int, PatchFailure> {
    match marker_addend_from(t, 0) {
        None => Err(PatchFailure::MissingMarker),
        Some(None) => Err(PatchFailure::Malformed),
        Some(Some(addend)) => Ok(addend as int),
    }
}

/// What patching an ELF image `data` with tables `t` for `package` yields.
pub open spec fn elf_patch(t: ElfTablesView, data: Seq<u8>, package: PackageType) -> Result<Seq<u8>, PatchFailure> {
    marker_patch(elf_marker_offset(t), data, ExecutableFormat::Elf, package)
}

fn is_marker_name(name: &Option<String>) -> (r: bool)
    ensures
        r == is_marker_symbol(match *name {
            Some(n) => Some(n@),
            None => None::<Seq<char>>,
        }),
{
    match name {
        Some(n) => {
            let marker = String::from_str("__TAURI_BUNDLE_TYPE");
            n.eq(&marker)
        },
        None => false,
    }
}

/// Finds the addend of the dynamic relocation whose offset is the value of
/// the first `__TAURI_BUNDLE_TYPE` symbol that has such a relocation.
pub fn find_bundle_type_symbol(t: &ElfTables) -> (r: Option<Option<i64>>)
    ensures
        r == marker_addend_from(t@, 0),
{
    let mut i: usize = 0;
    while i < t.symbols.len()
        invariant
            i <= t.symbols@.len(),
            marker_addend_from(t@, 0) == marker_addend_from(t@, i as int),
        decreases t.symbols@.len() - i,
    {
        let sym = &t.symbols[i];
        assert(t@.symbols[i as int] == sym@);
        if is_marker_name(&sym.name) {
            let mut k: usize = 0;
            while k < t.relocations.len()
                invariant
                    k <= t.relocations@.len(),
                    i < t.symbols@.len(),
                    sym == t.symbols@[i as int],
                    t@.symbols[i as int] == sym@,
                    is_marker_symbol(sym@.name),
                    marker_addend_from(t@, 0) == marker_addend_from(t@, i as int),
                    relocation_from(t.relocations@, sym.value, 0)
                        == relocation_from(t.relocations@, sym.value, k as int),
                decreases t.relocations@.len() - k,
            {
                if t.relocations[k].offset == sym.value {
                    return Some(t.relocations[k].addend);
                }
                k = k + 1;
            }
        }
        i = i + 1;
    }
    None
}

/// Writes the marker of `package` into the ELF image `data`, whose tables are `t`.
pub fn patch_elf(data: &mut Vec<u8>, t: &ElfTables, package: PackageType) -> (r: Result<(), PatchError>)
    ensures
        carries_out(r, old(data)@, final(data)@, elf_patch(t@, old(data)@, package), ExecutableFormat::Elf, package),
{
    match find_bundle_type_symbol(t) {
        None => Err(PatchError::MissingBundleTypeVar),
        Some(None) => Err(PatchError::BinaryParseError(
            String::from_str("marker relocation has no addend"),
        )),
        Some(Some(addend)) => {
            if addend < 0 {
                Err(PatchError::BinaryOffsetOutOfRange)
            } else {
                write_marker(data, addend as u64, ExecutableFormat::Elf, package)
            }
        },
    }
}

} // verus!
