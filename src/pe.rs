use vstd::prelude::*;
use crate::marker::{PatchError, PatchFailure, marker_patch, carries_out, write_marker};
use crate::package::{ExecutableFormat, PackageType};

verus! {

/// A section header: its name (`None` where it cannot be decoded), its file
/// offset and its virtual address.
#[derive(Debug, Clone, PartialEq, Eq)]
pub struct PeSection {
    pub name: Option<String>,
    pub pointer_to_raw_data: u32,
    pub virtual_address: u32,
}

/// A section header as plain values.
pub struct PeSectionView {
    pub name: Option<Seq<char>>,
    pub pointer_to_raw_data: u32,
    pub virtual_address: u32,
}

impl View for PeSection {
    type V = PeSectionView;

    open spec fn view(&self) -> PeSectionView {
        PeSectionView {
            name: match self.name {
                Some(n) => Some(n@),
                None => None,
            },
            pointer_to_raw_data: self.pointer_to_raw_data,
            virtual_address: self.virtual_address,
        }
    }
}

/// The parts of a PE image that locate the bundle-type marker.
#[derive(Debug, Clone, PartialEq, Eq)]
pub struct PeTables {
    pub sections: Vec<PeSection>,
    pub image_base: u64,
}

/// The tables of a PE image as plain values.
pub struct PeTablesView {
    pub sections: Seq<PeSectionView>,
    pub image_base: u64,
}

impl View for PeTables {
    type V = PeTablesView;

    open spec fn view(&self) -> PeTablesView {
        PeTablesView {
            sections: self.sections@.map_values(|s: PeSection| s@),
            image_base: self.image_base,
        }
    }
}

/// The index of the first section at or after `k` named `name`.
pub open spec fn section_from(sections: Seq<PeSectionView>, name: Seq<char>, k: int) -> Option<int>
    decreases sections.len() - k,
{
    if k >= sections.len() {
        None
    } else if sections[k].name == Some(name) {
        Some(k)
    } else {
        section_from(sections, name, k + 1)
    }
}

/// The little-endian unsigned value of the eight bytes of `data` at `at`.
pub open spec fn le_u64_at(data: Seq<u8>, at: int) -> int {
    data[at] + data[at + 1] * 0x100 + data[at + 2] * 0x1_0000 + data[at + 3] * 0x100_0000
        + data[at + 4] * 0x1_0000_0000 + data[at + 5] * 0x100_0000_0000
        + data[at + 6] * 0x1_0000_0000_0000 + data[at + 7] * 0x100_0000_0000_0000
}

/// The file offset of the marker in a PE image `data` with tables `t`.
///
/// The `.taubndl` section's raw data starts with a pointer to the marker
/// text; the pointer, less the image base, is an address inside `.rdata`,
/// which is mapped to a file offset through that section's header. An
/// address below the image base or below `.rdata` is malformed.
pub open spec fn pe_marker_offset(t: PeTablesView, data: Seq<u8>) -> Result<int, PatchFailure> {
    match section_from(t.sections, ".taubndl"@, 0) {
        None => Err(PatchFailure::MissingMarker),
        Some(b) => {
            let raw = t.sections[b].pointer_to_raw_data as int;
            if raw + 8 > data.len() {
                Err(PatchFailure::OutOfRange)
            } else {
                let pointer = le_u64_at(data, raw);
                match section_from(t.sections, ".rdata"@, 0) {
                    None => Err(PatchFailure::Malformed),
                    Some(d) => {
                        let rdata = t.sections[d];
                        if pointer < t.image_base {
                            Err(PatchFailure::Malformed)
                        } else if pointer - t.image_base < rdata.virtual_address {
                            Err(PatchFailure::Malformed)
                        } else {
                            Ok(rdata.pointer_to_raw_data + (pointer - t.image_base - rdata.virtual_address))
                        }
                    },
                }
            }
        },
    }
}

/// What patching a PE image `data` with tables `t` for `package` yields.
pub open spec fn pe_patch(t: PeTablesView, data: Seq<u8>, package: PackageType) -> Result<Seq<u8>, PatchFailure> {
    marker_patch(pe_marker_offset(t, data), data, ExecutableFormat::Pe, package)
}

/// The index of the first section named `name`.
pub fn find_section(sections: &Vec<PeSection>, name: &str) -> (r: Option<usize>)
    ensures
        match r {
            Some(i) => i < sections@.len() && section_from(sections@.map_values(|s: PeSection| s@), name@, 0) == Some(i as int),
            None => section_from(sections@.map_values(|s: PeSection| s@), name@, 0) is None,
        },
{
    let wanted = String::from_str(name);
    let mut i: usize = 0;
    while i < sections.len()
        invariant
            i <= sections@.len(),
            wanted@ == name@,
            section_from(sections@.map_values(|s: PeSection| s@), name@, 0) == section_from(sections@.map_values(|s: PeSection| s@), name@, i as int),
        decreases sections@.len() - i,
    {
        assert(sections@.map_values(|s: PeSection| s@)[i as int] == sections@[i as int]@);
        match &sections[i].name {
            Some(n) => {
                if n.eq(&wanted) {
                    return Some(i);
                }
            },
            None => {},
        }
        i = i + 1;
    }
    None
}

/// Reads the little-endian `u64` stored at `at`.
pub fn read_u64_le(data: &Vec<u8>, at: usize) -> (r: u64)
    requires
        at + 8 <= data@.len(),
    ensures
        r as int == le_u64_at(data@, at as int),
{
    assert(data@.len() == data.len());
    let b0 = data[at] as u64;
    let b1 = data[at + 1] as u64;
    let b2 = data[at + 2] as u64;
    let b3 = data[at + 3] as u64;
    let b4 = data[at + 4] as u64;
    let b5 = data[at + 5] as u64;
    let b6 = data[at + 6] as u64;
    let b7 = data[at + 7] as u64;
    b0 + b1 * 0x100 + b2 * 0x1_0000 + b3 * 0x100_0000 + b4 * 0x1_0000_0000
        + b5 * 0x100_0000_0000 + b6 * 0x1_0000_0000_0000 + b7 * 0x100_0000_0000_0000
}

fn malformed(message: &str) -> (r: PatchError)
    ensures
        r is BinaryParseError,
{
    PatchError::BinaryParseError(String::from_str(message))
}

/// Resolves the file offset of the marker in the PE image `data` with tables `t`.
pub fn locate_pe_marker(data: &Vec<u8>, t: &PeTables) -> (r: Result<u64, PatchError>)
    ensures
        match pe_marker_offset(t@, data@) {
            Ok(offset) => if offset <= u64::MAX {
                r == Ok::<u64, PatchError>(offset as u64)
            } else {
                r matches Err(PatchError::BinaryOffsetOutOfRange)
            },
            Err(PatchFailure::MissingMarker) => r matches Err(PatchError::MissingBundleTypeVar),
            Err(PatchFailure::OutOfRange) => r matches Err(PatchError::BinaryOffsetOutOfRange),
            Err(_) => r matches Err(PatchError::BinaryParseError(_)),
        },
{
    let b = match find_section(&t.sections, ".taubndl") {
        Some(b) => b,
        None => return Err(PatchError::MissingBundleTypeVar),
    };
    let raw = t.sections[b].pointer_to_raw_data as usize;
    if raw > data.len() || data.len() - raw < 8 {
        return Err(PatchError::BinaryOffsetOutOfRange);
    }
    let pointer = read_u64_le(data, raw);
    let d = match find_section(&t.sections, ".rdata") {
        Some(d) => d,
        None => return Err(malformed(".rdata section not found")),
    };
    if pointer < t.image_base {
        return Err(malformed("invalid RVA offset"));
    }
    let rva = pointer - t.image_base;
    let rdata = &t.sections[d];
    if rva < rdata.virtual_address as u64 {
        return Err(malformed("invalid RVA offset"));
    }
    let delta = rva - rdata.virtual_address as u64;
    if delta > u64::MAX - rdata.pointer_to_raw_data as u64 {
        return Err(PatchError::BinaryOffsetOutOfRange);
    }
    Ok(rdata.pointer_to_raw_data as u64 + delta)
}

/// Writes the marker of `package` into the PE image `data`, whose tables are `t`.
pub fn patch_pe(data: &mut Vec<u8>, t: &PeTables, package: PackageType) -> (r: Result<(), PatchError>)
    ensures
        carries_out(r, old(data)@, final(data)@, pe_patch(t@, old(data)@, package), ExecutableFormat::Pe, package),
{
    assert(data@.len() == data.len());
    match locate_pe_marker(data, t) {
        Ok(offset) => write_marker(data, offset, ExecutableFormat::Pe, package),
        Err(e) => Err(e),
    }
}

} // verus!
