use vstd::prelude::*;
use crate::elf::{ElfRelocation, ElfSymbol, ElfTables, ElfTablesView, elf_patch, patch_elf};
use crate::marker::{PatchError, carries_out};
use crate::package::{ExecutableFormat, PackageType};
use crate::pe::{PeSection, PeSectionView, PeTables, PeTablesView, pe_patch, patch_pe};

verus! {

/// The container kind that goblin's header peek announces for `data`, or
/// `None` where `data` is shorter than sixteen bytes or its magic cannot be read.
pub uninterp spec fn object_format_of(data: Seq<u8>) -> Option<ExecutableFormat>;

/// The symbol and dynamic relocation tables goblin reads from the ELF image `data`.
pub uninterp spec fn elf_tables_of(data: Seq<u8>) -> Option<ElfTablesView>;

/// The header fields goblin reads from the PE image `data`.
pub uninterp spec fn pe_header_of(data: Seq<u8>) -> Option<PeHeader>;

/// The section headers goblin reads from `data`, with the COFF header at
/// `coff_offset` and the section table at `table_offset`.
pub uninterp spec fn pe_sections_of(data: Seq<u8>, coff_offset: int, table_offset: int) -> Option<Seq<PeSectionView>>;

/// The size of the `PE\0\0` signature that precedes the COFF header.
pub const PE_SIGNATURE_SIZE: usize = 4;

/// The size of the COFF header, which the optional header follows.
pub const COFF_HEADER_SIZE: usize = 20;

/// The fields of a PE image's headers that locate its section table.
#[derive(Debug, Clone, Copy, PartialEq, Eq, Structural)]
pub struct PeHeader {
    /// The file offset of the `PE\0\0` signature.
    pub pe_pointer: u32,
    /// The size of the optional header that precedes the section table.
    pub size_of_optional_header: u16,
    /// The preferred load address, where the image has an optional header.
    pub image_base: Option<u64>,
}

/// Relies on `goblin::peek_bytes` over the first sixteen bytes: the
/// container kind its magic announces. Nothing past the header is parsed.
#[verifier::external_body]
fn sniff_format(data: &Vec<u8>) -> (r: Option<ExecutableFormat>)
    ensures
        r == object_format_of(data@),
{
    let hint = goblin::peek_bytes(data.first_chunk::<16>()?).ok()?;
    Some(match hint {
        goblin::Hint::Elf(_) => ExecutableFormat::Elf,
        goblin::Hint::PE => ExecutableFormat::Pe,
        _ => ExecutableFormat::Unknown,
    })
}

/// Relies on `goblin::elf::Elf::parse`, with `Strtab::get_at` for symbol
/// names: the symbol table and the `RELA` dynamic relocations, in file order.
#[verifier::external_body]
fn read_elf_tables(data: &Vec<u8>) -> (r: Option<ElfTables>)
    ensures
        match r {
            Some(t) => elf_tables_of(data@) == Some(t@),
            None => elf_tables_of(data@) is None,
        },
{
    goblin::elf::Elf::parse(data).ok().map(|e| ElfTables {
        symbols: e.syms.iter().map(|s| ElfSymbol {
            name: e.strtab.get_at(s.st_name).map(String::from),
            value: s.st_value,
        }).collect(),
        relocations: e.dynrelas.iter().map(|r| ElfRelocation { offset: r.r_offset, addend: r.r_addend }).collect(),
    })
}

/// Relies on `goblin::pe::header::Header::parse`: the DOS header and stub,
/// the rich header, the COFF header and the optional header, whose data
/// directory entries are read but not followed.
#[verifier::external_body]
fn read_pe_header(data: &Vec<u8>) -> (r: Option<PeHeader>)
    ensures
        r == pe_header_of(data@),
{
    goblin::pe::header::Header::parse(data).ok().map(|h| PeHeader {
        pe_pointer: h.dos_header.pe_pointer,
        size_of_optional_header: h.coff_header.size_of_optional_header,
        image_base: h.optional_header.map(|o| o.windows_fields.image_base),
    })
}

/// Relies on `goblin::pe::header::CoffHeader::parse` and its `sections`,
/// with `SectionTable::name`: the section headers in file order.
#[verifier::external_body]
fn read_pe_sections(data: &Vec<u8>, coff_offset: usize, table_offset: usize) -> (r: Option<Vec<PeSection>>)
    ensures
        match r {
            Some(s) => pe_sections_of(data@, coff_offset as int, table_offset as int)
                == Some(s@.map_values(|x: PeSection| x@)),
            None => pe_sections_of(data@, coff_offset as int, table_offset as int) is None,
        },
{
    let (mut at, mut table_at) = (coff_offset, table_offset);
    let coff = goblin::pe::header::CoffHeader::parse(data, &mut at).ok()?;
    let sections = coff.sections(data, &mut table_at).ok()?;
    Some(sections.iter().map(|s| PeSection {
        name: s.name().ok().map(String::from),
        pointer_to_raw_data: s.pointer_to_raw_data,
        virtual_address: s.virtual_address,
    }).collect())
}

/// The file offset of the section table of a PE image with header `h`: it
/// follows the signature, the COFF header and the optional header.
pub open spec fn pe_table_offset(h: PeHeader) -> int {
    h.pe_pointer + PE_SIGNATURE_SIZE + COFF_HEADER_SIZE + h.size_of_optional_header
}

/// The section table and image base of the PE image `data`, the image base
/// being zero without an optional header.
pub open spec fn pe_tables_of(data: Seq<u8>) -> Option<PeTablesView> {
    match pe_header_of(data) {
        None => None,
        Some(h) => if pe_table_offset(h) > usize::MAX {
            None
        } else {
            match pe_sections_of(data, h.pe_pointer + PE_SIGNATURE_SIZE, pe_table_offset(h)) {
                None => None,
                Some(sections) => Some(PeTablesView {
                    sections,
                    image_base: match h.image_base {
                        Some(base) => base,
                        None => 0,
                    },
                }),
            }
        },
    }
}

/// Reads the section table and image base of the PE image `data`.
pub fn read_pe_tables(data: &Vec<u8>) -> (r: Option<PeTables>)
    ensures
        match r {
            Some(t) => pe_tables_of(data@) == Some(t@),
            None => pe_tables_of(data@) is None,
        },
{
    let header = match read_pe_header(data) {
        Some(h) => h,
        None => return None,
    };
    let table_offset = header.pe_pointer as u64 + PE_SIGNATURE_SIZE as u64 + COFF_HEADER_SIZE as u64
        + header.size_of_optional_header as u64;
    if table_offset > usize::MAX as u64 {
        return None;
    }
    let coff_offset = header.pe_pointer as usize + PE_SIGNATURE_SIZE;
    let sections = match read_pe_sections(data, coff_offset, table_offset as usize) {
        Some(s) => s,
        None => return None,
    };
    let image_base = match header.image_base {
        Some(base) => base,
        None => 0,
    };
    Some(PeTables { sections, image_base })
}

/// What patching the whole image `data` for `package` does, stated over
/// what goblin reads from it.
pub open spec fn binary_patch_done(
    r: Result<(), PatchError>,
    before: Seq<u8>,
    after: Seq<u8>,
    package: PackageType,
) -> bool {
    match object_format_of(before) {
        None => r matches Err(PatchError::BinaryParseError(_)) && after == before,
        Some(ExecutableFormat::Unknown) => r matches Err(PatchError::UnsupportedFormat) && after == before,
        Some(ExecutableFormat::Elf) => match elf_tables_of(before) {
            None => r matches Err(PatchError::BinaryParseError(_)) && after == before,
            Some(t) => carries_out(r, before, after, elf_patch(t, before, package), ExecutableFormat::Elf, package),
        },
        Some(ExecutableFormat::Pe) => match pe_tables_of(before) {
            None => r matches Err(PatchError::BinaryParseError(_)) && after == before,
            Some(t) => carries_out(r, before, after, pe_patch(t, before, package), ExecutableFormat::Pe, package),
        },
    }
}

/// Recognises the image in `data` as ELF or PE, locates its bundle-type
/// marker and overwrites it with the code of `package`. The buffer changes
/// only on success, and then only in the three marker bytes.
pub fn patch_binary_bytes(data: &mut Vec<u8>, package: PackageType) -> (r: Result<(), PatchError>)
    ensures
        binary_patch_done(r, old(data)@, final(data)@, package),
{
    match sniff_format(data) {
        None => Err(PatchError::BinaryParseError(String::from_str("no executable header could be read"))),
        Some(ExecutableFormat::Unknown) => Err(PatchError::UnsupportedFormat),
        Some(ExecutableFormat::Elf) => match read_elf_tables(data) {
            None => Err(PatchError::BinaryParseError(String::from_str("not a valid ELF image"))),
            Some(t) => patch_elf(data, &t, package),
        },
        Some(ExecutableFormat::Pe) => match read_pe_tables(data) {
            None => Err(PatchError::BinaryParseError(String::from_str("not a valid PE image"))),
            Some(t) => patch_pe(data, &t, package),
        },
    }
}

} // verus!
