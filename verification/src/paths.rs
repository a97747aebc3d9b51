//! Paths as strings. The operations on them are those of `std::path`, whose
//! results are named here and not spelled out.

use vstd::prelude::*;

verus! {

/// The path that `Path::join` gives for `base` and `name`.
pub uninterp spec fn joined(base: Seq<char>, name: Seq<char>) -> Seq<char>;

/// The path without its final component, as `Path::parent` gives it, or
/// `None` where the path ends in a root or is empty.
pub uninterp spec fn parent_of(path: Seq<char>) -> Option<Seq<char>>;

/// The final component of the path, as `Path::file_name` gives it, or `None`
/// where the path ends in `..` or has no component.
pub uninterp spec fn file_name_of(path: Seq<char>) -> Option<Seq<char>>;

/// The rest of `path` below `base`, as `Path::strip_prefix` gives it, or
/// `None` where `base` is not a prefix of `path`.
pub uninterp spec fn stripped_of(path: Seq<char>, base: Seq<char>) -> Option<Seq<char>>;

/// Whether two strings are the same path to `Path`'s `==`, which compares
/// component by component.
pub uninterp spec fn same_path(a: Seq<char>, b: Seq<char>) -> bool;

/// The characters of an optional string.
pub open spec fn opt_view(s: Option<String>) -> Option<Seq<char>> {
    match s {
        Some(text) => Some(text@),
        None => None,
    }
}

/// `Path::join`: the result is a function of the two paths alone.
#[verifier::external_body]
pub(crate) fn join(base: &str, name: &str) -> (r: String)
    ensures
        r@ == joined(base@, name@),
{
    std::path::Path::new(base).join(name).to_string_lossy().into_owned()
}

/// `Path::parent`: the result is a function of the path alone.
#[verifier::external_body]
pub(crate) fn parent(path: &str) -> (r: Option<String>)
    ensures
        opt_view(r) == parent_of(path@),
{
    match std::path::Path::new(path).parent() {
        Some(dir) => Some(dir.to_string_lossy().into_owned()),
        None => None,
    }
}

/// `Path::file_name`: the result is a function of the path alone.
#[verifier::external_body]
pub(crate) fn file_name(path: &str) -> (r: Option<String>)
    ensures
        opt_view(r) == file_name_of(path@),
{
    match std::path::Path::new(path).file_name() {
        Some(name) => Some(name.to_string_lossy().into_owned()),
        None => None,
    }
}

/// Whether what `Path::strip_prefix` leaves of `path` below `base` leads
/// back to `path` when it is joined onto `base`.
pub open spec fn leads_back(path: Seq<char>, base: Seq<char>) -> bool {
    match stripped_of(path, base) {
        Some(rest) => same_path(joined(base, rest), path),
        None => true,
    }
}

/// `Path::strip_prefix`: the result is a function of the two paths alone;
/// the error, which carries nothing, becomes `None`. What is returned
/// yields `path` again when joined onto `base`.
#[verifier::external_body]
pub(crate) fn strip_prefix(path: &str, base: &str) -> (r: Option<String>)
    ensures
        opt_view(r) == stripped_of(path@, base@),
        r matches Some(rest) ==> same_path(joined(base@, rest@), path@),
{
    match std::path::Path::new(path).strip_prefix(base) {
        Ok(rest) => Some(rest.to_string_lossy().into_owned()),
        Err(_) => None,
    }
}

/// `==` on `Path`: the result is a function of the two paths alone, and
/// a path equals itself.
#[verifier::external_body]
pub(crate) fn paths_equal(a: &str, b: &str) -> (r: bool)
    ensures
        r == same_path(a@, b@),
        a@ == b@ ==> r,
{
    std::path::Path::new(a) == std::path::Path::new(b)
}

/// The final component of the path, or the empty string where it has none.
pub open spec fn base_name(path: Seq<char>) -> Seq<char> {
    match file_name_of(path) {
        Some(name) => name,
        None => Seq::empty(),
    }
}

/// The final component of the path, or the empty string where it has none.
pub fn base_name_of(path: &str) -> (name: String)
    ensures
        name@ == base_name(path@),
{
    match file_name(path) {
        Some(found) => found,
        None => String::new(),
    }
}

} // verus!
