//! File paths, as far as the engine looks into them.

use std::path::PathBuf;
use vstd::prelude::*;

verus! {

/// `std::path::PathBuf`, carried through as an opaque value.
#[verifier::external_type_specification]
#[verifier::external_body]
pub struct ExPathBuf(PathBuf);

/// The last component of `path` as text.
///
/// Calls `Path::file_name` and turns its result into a `String`. Nothing is
/// claimed of the outcome: `None` comes back where the path has no last
/// component (it ends in `..`, or is empty or a root) or where that
/// component is not valid Unicode.
#[verifier::external_body]
pub(crate) fn file_name_text(path: &PathBuf) -> (name: Option<String>) {
    match path.file_name() {
        Some(name) => match name.to_str() {
            Some(text) => Some(text.to_owned()),
            None => None,
        },
        None => None,
    }
}

} // verus!
