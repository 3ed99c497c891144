//! File paths, held as text and handled by `std::path`.

use std::path::{Path, PathBuf};
use vstd::prelude::*;

verus! {

/// Whether `std::path` takes `p` for an absolute path.
pub uninterp spec fn is_absolute_path(p: Seq<char>) -> bool;

/// `base` with `p` adjoined, as `PathBuf::push` makes it.
pub uninterp spec fn pushed_path(base: Seq<char>, p: Seq<char>) -> Seq<char>;

/// The directory that holds `p`, as `Path::parent` gives it.
pub uninterp spec fn parent_of(p: Seq<char>) -> Option<Seq<char>>;

/// The last component of `p`, as `Path::file_name` gives it.
pub uninterp spec fn file_name_of(p: Seq<char>) -> Option<Seq<char>>;

/// Text of an optional path.
pub open spec fn opt_view(o: Option<String>) -> Option<Seq<char>> {
    match o {
        Some(s) => Some(s@),
        None => None,
    }
}

/// Relies on `Path::is_absolute`.
#[verifier::external_body]
pub(crate) fn path_is_absolute(p: &str) -> (r: bool)
    ensures
        r == is_absolute_path(p@),
{
    Path::new(p).is_absolute()
}

/// Relies on `PathBuf::push`.
#[verifier::external_body]
pub(crate) fn path_push(base: &str, p: &str) -> (r: String)
    ensures
        r@ == pushed_path(base@, p@),
{
    let mut b = PathBuf::from(base);
    b.push(p);
    b.to_string_lossy().into_owned()
}

/// Relies on `Path::parent`.
#[verifier::external_body]
pub(crate) fn path_parent(p: &str) -> (r: Option<String>)
    ensures
        opt_view(r) == parent_of(p@),
{
    Path::new(p).parent().map(|d| d.to_string_lossy().into_owned())
}

/// Relies on `Path::file_name`.
#[verifier::external_body]
pub(crate) fn path_file_name(p: &str) -> (r: Option<String>)
    ensures
        opt_view(r) == file_name_of(p@),
{
    Path::new(p).file_name().map(|n| n.to_string_lossy().into_owned())
}

} // verus!
