use vstd::prelude::*;

verus! {

/// The parts joined, in order, into the path of crate `crate_name` beside
/// the project path `path`: under `path` itself where it is absolute, under
/// `../path` otherwise.
pub open spec fn tauri_path_parts_of(path: Seq<char>, crate_name: Seq<char>, absolute: bool) -> Seq<Seq<char>> {
    if absolute {
        seq![path, crate_name]
    } else {
        seq![".."@, path, crate_name]
    }
}

/// The parts of the path of crate `crate_name` beside the project path
/// `path`, given whether `path` is absolute.
pub fn tauri_path_parts(path: &str, crate_name: &str, absolute: bool) -> (r: Vec<String>)
    ensures
        r@.map_values(|s: String| s@) == tauri_path_parts_of(path@, crate_name@, absolute),
{
    let mut parts: Vec<String> = Vec::new();
    if !absolute {
        parts.push(String::from_str(".."));
    }
    parts.push(String::from_str(path));
    parts.push(String::from_str(crate_name));
    assert(parts@.map_values(|s: String| s@) =~= tauri_path_parts_of(path@, crate_name@, absolute));
    parts
}

/// Relies on `std::path::Path::is_absolute`. What counts as absolute
/// depends on the target platform; on every platform an empty path is relative.
#[verifier::external_body]
fn path_is_absolute(path: &str) -> (r: bool)
    ensures
        path@.len() == 0 ==> !r,
{
    std::path::Path::new(path).is_absolute()
}

/// Relies on `PathBuf`'s `FromIterator`, which pushes each part in turn
/// with the target platform's separator; nothing is stated of the text.
#[verifier::external_body]
fn join_path_parts(parts: &Vec<String>) -> (r: String) {
    parts.iter().collect::<std::path::PathBuf>().to_string_lossy().into_owned()
}

/// Resolves the path of crate `crate_name` beside the project path `path`:
/// joined directly where `path` is absolute, below the parent directory
/// otherwise. The parts joined are those of [`tauri_path_parts`].
pub fn resolve_tauri_path(path: &str, crate_name: &str) -> (r: String) {
    let absolute = path_is_absolute(path);
    let parts = tauri_path_parts(path, crate_name, absolute);
    join_path_parts(&parts)
}

} // verus!
