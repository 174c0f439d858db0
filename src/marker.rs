use vstd::prelude::*;
use crate::package::{ExecutableFormat, PackageType, marker_code, marker_code_for, platform_name, platform_name_of};

verus! {

/// Why patching a binary failed.
#[derive(Debug, Clone, PartialEq, Eq)]
pub enum PatchError {
    /// The file is not a valid container of the expected kind, or its
    /// marker tables are inconsistent.
    BinaryParseError(String),
    /// The file parses, but as neither ELF nor PE.
    UnsupportedFormat,
    /// The marker symbol or section is absent.
    MissingBundleTypeVar,
    /// The resolved marker lies (partly) past the end of the file.
    BinaryOffsetOutOfRange,
    /// Reading the file to patch failed.
    BinaryReadError(String),
    /// Writing the patched file back failed.
    BinaryWriteError(String),
    /// The package type does not apply to the binary's platform: the package
    /// type's short name and the platform name.
    InvalidPackageType(String, String),
}

/// The failure classes of the patch computation, without messages.
#[derive(Debug, Clone, Copy, PartialEq, Eq, Structural)]
pub enum PatchFailure {
    Malformed,
    MissingMarker,
    OutOfRange,
    WrongPackageType,
}

/// The three marker bytes at `offset..offset + 3` fit inside `data`.
pub open spec fn marker_in_range(data: Seq<u8>, offset: int) -> bool {
    0 <= offset && offset + 3 <= data.len()
}

/// `data` with the three bytes at `offset` replaced by `code`.
pub open spec fn patched(data: Seq<u8>, offset: int, code: Seq<u8>) -> Seq<u8> {
    data.update(offset, code[0]).update(offset + 1, code[1]).update(offset + 2, code[2])
}

/// The result of writing the marker of `package` for `format` into `data`,
/// given the resolved marker offset (or why it could not be resolved).
pub open spec fn marker_patch(
    located: Result<int, PatchFailure>,
    data: Seq<u8>,
    format: ExecutableFormat,
    package: PackageType,
) -> Result<Seq<u8>, PatchFailure> {
    match located {
        Err(f) => Err(f),
        Ok(offset) => if !marker_in_range(data, offset) {
            Err(PatchFailure::OutOfRange)
        } else {
            match marker_code(format, package) {
                None => Err(PatchFailure::WrongPackageType),
                Some(code) => Ok(patched(data, offset, code)),
            }
        },
    }
}

/// The bytes a patch leaves behind: the patched bytes, or `data` unchanged on failure.
pub open spec fn bytes_after(outcome: Result<Seq<u8>, PatchFailure>, data: Seq<u8>) -> Seq<u8> {
    match outcome {
        Ok(bytes) => bytes,
        Err(_) => data,
    }
}

/// `r` is the error that reports failure `f` for `format` and `package`.
pub open spec fn reports_failure(
    r: Result<(), PatchError>,
    f: PatchFailure,
    format: ExecutableFormat,
    package: PackageType,
) -> bool {
    match f {
        PatchFailure::Malformed => r matches Err(PatchError::BinaryParseError(_)),
        PatchFailure::MissingMarker => r matches Err(PatchError::MissingBundleTypeVar),
        PatchFailure::OutOfRange => r matches Err(PatchError::BinaryOffsetOutOfRange),
        PatchFailure::WrongPackageType => r matches Err(PatchError::InvalidPackageType(name, platform))
            && name@ == package.spec_short_name()@ && platform@ == platform_name(format)@,
    }
}

/// `r` and the buffer moving from `before` to `after` carry out `expected`.
pub open spec fn carries_out(
    r: Result<(), PatchError>,
    before: Seq<u8>,
    after: Seq<u8>,
    expected: Result<Seq<u8>, PatchFailure>,
    format: ExecutableFormat,
    package: PackageType,
) -> bool {
    match expected {
        Ok(bytes) => r is Ok && after == bytes,
        Err(f) => after == before && reports_failure(r, f, format, package),
    }
}

/// Overwrites the three marker bytes at `offset` with the code of `package`
/// for `format`, after checking that they lie inside the buffer and that the
/// package type applies to the format. On failure the buffer is untouched.
pub fn write_marker(data: &mut Vec<u8>, offset: u64, format: ExecutableFormat, package: PackageType) -> (r: Result<(), PatchError>)
    ensures
        carries_out(r, old(data)@, final(data)@, marker_patch(Ok(offset as int), old(data)@, format, package), format, package),
{
    if offset > data.len() as u64 || data.len() as u64 - offset < 3 {
        return Err(PatchError::BinaryOffsetOutOfRange);
    }
    match marker_code_for(format, package) {
        None => Err(PatchError::InvalidPackageType(
            String::from_str(package.short_name()),
            String::from_str(platform_name_of(format)),
        )),
        Some(code) => {
            let at = offset as usize;
            data.set(at, code.0);
            data.set(at + 1, code.1);
            data.set(at + 2, code.2);
            Ok(())
        },
    }
}

} // verus!
