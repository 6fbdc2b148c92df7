//! Paths of the standard library, turned into path text.

use crate::chars::option_view;
use crate::str_path::ToStringPath;
use std::path::{Path, PathBuf};
use vstd::prelude::*;

verus! {

/// `std::path::Path`, of which nothing is known here but what the
/// functions below say.
#[verifier::external_type_specification]
#[verifier::external_body]
pub struct ExPath(Path);

/// `std::path::PathBuf`, the owned form of `Path`, which Verus wants
/// declared wherever `Path` is.
#[verifier::external_type_specification]
#[verifier::external_body]
pub struct ExPathBuf(PathBuf);

/// What `Path::to_string_lossy` gives for a path: its text, with every
/// sequence that is not valid Unicode replaced by U+FFFD.
pub uninterp spec fn path_lossy_text(path: &Path) -> Seq<char>;

/// What `Path::to_str` gives for a path: its text where the path is valid
/// Unicode, nothing where it is not.
pub uninterp spec fn path_unicode_text(path: &Path) -> Option<Seq<char>>;

/// `Path::to_string_lossy`, as an owned string. The result is a function of
/// the path alone.
#[verifier::external_body]
fn lossy_text(path: &Path) -> (s: String)
    ensures
        s@ == path_lossy_text(path),
{
    path.to_string_lossy().into_owned()
}

/// `Path::to_str`, as an owned string. The result is a function of the path
/// alone.
#[verifier::external_body]
fn unicode_text(path: &Path) -> (s: Option<String>)
    ensures
        option_view(s) == path_unicode_text(path),
{
    match path.to_str() {
        Some(text) => Some(text.to_string()),
        None => None,
    }
}

/// The text of a path, where the path is valid Unicode.
pub fn path_to_string_checked(path: &Path) -> (s: Option<String>)
    ensures
        option_view(s) == path_unicode_text(path),
{
    unicode_text(path)
}

/// The text of a path that is valid Unicode.
pub fn path_to_string(path: &Path) -> (s: String)
    requires
        path_unicode_text(path) is Some,
    ensures
        Some(s@) == path_unicode_text(path),
{
    unicode_text(path).unwrap()
}

impl ToStringPath for Path {
    open spec fn string_path(&self) -> Seq<char> {
        path_lossy_text(self)
    }

    /// The text of the path, lossily where it is not valid Unicode.
    fn to_string_path(&self) -> (s: String) {
        lossy_text(self)
    }
}

} // verus!
