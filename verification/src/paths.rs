//! Paths taken apart by `std::path`.
//!
//! Each function here hands a path to `std::path::Path` and gives back
//! what comes out as text. None of the bodies is verified. What a path
//! falls into follows the path syntax that the library is built for, so the
//! contracts give each result a name and say little more of it.

use vstd::prelude::*;

verus! {

/// The parent of a path, as `std::path::Path::parent` gives it: the path
/// without its final component, and `None` where the path ends in a root
/// or is empty.
pub uninterp spec fn parent_of(path: Seq<char>) -> Option<Seq<char>>;

/// The stem of a path's file name, as `std::path::Path::file_stem` gives
/// it: the file name without its extension, and `None` where the path has
/// no file name.
pub uninterp spec fn stem_of(path: Seq<char>) -> Option<Seq<char>>;

/// The stem of a path's file name, and the empty text where the path has
/// no file name.
pub open spec fn file_stem_of(path: Seq<char>) -> Seq<char> {
    match stem_of(path) {
        Some(stem) => stem,
        None => Seq::empty(),
    }
}

/// Whether a text can be given to a path as its extension: it can where
/// it holds no path separator.
pub open spec fn is_extension(extension: Seq<char>) -> bool {
    forall|i: int| 0 <= i < extension.len() ==> extension[i] != '/' && extension[i] != '\\'
}

/// The extension of a path's file name, as `std::path::Path::extension`
/// gives it: what follows the last dot of the file name, and `None` where
/// there is no file name or no extension.
pub uninterp spec fn extension_of(path: Seq<char>) -> Option<Seq<char>>;

/// A path with another extension, as `std::path::Path::with_extension`
/// gives it. With the empty extension the path loses the one it has.
pub uninterp spec fn with_extension_of(path: Seq<char>, extension: Seq<char>) -> Seq<char>;

/// What of a path lies below a base, as `std::path::Path::strip_prefix`
/// gives it: the path that, joined onto the base, yields the path, and
/// `None` where the path does not start with the base.
pub uninterp spec fn below_of(path: Seq<char>, base: Seq<char>) -> Option<Seq<char>>;

/// The parent of a path, by `std::path::Path::parent`.
///
/// Trusted: the body is not verified. The contract names the result and
/// claims of it that a parent is the path with something taken off its end.
#[verifier::external_body]
pub(crate) fn path_parent(path: &str) -> (parent: Option<String>)
    ensures
        parent.deep_view() == parent_of(path@),
        parent matches Some(p) ==> p@.is_prefix_of(path@) && p@.len() < path@.len(),
{
    match std::path::Path::new(path).parent() {
        Some(p) => Some(p.to_string_lossy().into_owned()),
        None => None,
    }
}

/// The stem of a path's file name, by `std::path::Path::file_stem`.
///
/// Trusted: the body is not verified. The contract gives the result its
/// name and claims no more of it.
#[verifier::external_body]
fn path_file_stem(path: &str) -> (stem: Option<String>)
    ensures
        stem.deep_view() == stem_of(path@),
{
    match std::path::Path::new(path).file_stem() {
        Some(stem) => Some(stem.to_string_lossy().into_owned()),
        None => None,
    }
}

/// The stem of a path's file name, and the empty text where the path has
/// no file name.
pub fn file_stem(path: &str) -> (stem: String)
    ensures
        stem@ == file_stem_of(path@),
{
    match path_file_stem(path) {
        Some(stem) => stem,
        None => String::new(),
    }
}

/// The extension of a path's file name, by `std::path::Path::extension`.
///
/// Trusted: the body is not verified. The contract gives the result its
/// name and claims no more of it.
#[verifier::external_body]
pub(crate) fn path_extension(path: &str) -> (extension: Option<String>)
    ensures
        extension.deep_view() == extension_of(path@),
{
    match std::path::Path::new(path).extension() {
        Some(extension) => Some(extension.to_string_lossy().into_owned()),
        None => None,
    }
}

/// A path with another extension, by `std::path::Path::with_extension`.
///
/// Trusted: the body is not verified. The contract gives the result its
/// name and claims no more of it. `std` panics on an extension that holds
/// a path separator, so none may be given.
#[verifier::external_body]
pub(crate) fn with_extension(path: &str, extension: &str) -> (r: String)
    requires
        is_extension(extension@),
    ensures
        r@ == with_extension_of(path@, extension@),
{
    std::path::Path::new(path).with_extension(extension).to_string_lossy().into_owned()
}

/// What of a path lies below a base, by `std::path::Path::strip_prefix`.
///
/// Trusted: the body is not verified. The contract gives the result its
/// name and claims no more of it.
#[verifier::external_body]
pub(crate) fn path_below(path: &str, base: &str) -> (below: Option<String>)
    ensures
        below.deep_view() == below_of(path@, base@),
{
    match std::path::Path::new(path).strip_prefix(base) {
        Ok(below) => Some(below.to_string_lossy().into_owned()),
        Err(_) => None,
    }
}

} // verus!
