//! Where an exported file goes: path operations of the standard library.

use vstd::prelude::*;

verus! {

/// Calls `std::path::PathBuf::join` on `directory` with `file_name` and
/// hands the joined path back as text. Trusted, with nothing claimed about
/// the path: how two parts join is the platform's rule.
#[verifier::external_body]
pub(crate) fn join_path(directory: &str, file_name: &str) -> (path: String) {
    std::path::PathBuf::from(directory).join(file_name).to_string_lossy().into_owned()
}

/// Calls `std::path::Path::parent` on `path` and hands the parent back as
/// text, or `None` where the path has none. Trusted, with nothing claimed
/// about which paths have a parent.
#[verifier::external_body]
pub(crate) fn parent_of(path: &str) -> (parent: Option<String>) {
    match std::path::Path::new(path).parent() {
        Some(directory) => Some(directory.to_string_lossy().into_owned()),
        None => None,
    }
}

} // verus!
