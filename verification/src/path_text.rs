//! Paths held as text, compared the way `std::path::Path` compares them.

use vstd::prelude::*;

verus! {

/// Whether `Path::eq` holds between the paths `a` and `b`.
pub uninterp spec fn path_equivalent(a: Seq<char>, b: Seq<char>) -> bool;

/// Whether `a` and `b` name the same path: the same text, or paths whose
/// components are equal.
pub open spec fn same_path(a: Seq<char>, b: Seq<char>) -> bool {
    a == b || path_equivalent(a, b)
}

/// `Path::eq` on two paths given as text. It compares the paths component
/// by component, so equal texts are always equal paths; which other texts
/// are equal paths is not stated.
#[verifier::external_body]
pub(crate) fn paths_equal(a: &str, b: &str) -> (same: bool)
    ensures
        same == (a@ == b@ || path_equivalent(a@, b@)),
{
    std::path::Path::new(a) == std::path::Path::new(b)
}

/// Whether two optional paths are the same: both absent, or the same path.
pub open spec fn root_matches(current: Option<Seq<char>>, root: Option<Seq<char>>) -> bool {
    match (current, root) {
        (Some(a), Some(b)) => same_path(a, b),
        (None, None) => true,
        _ => false,
    }
}

/// The text of an optional string.
pub open spec fn optional_text(text: Option<String>) -> Option<Seq<char>> {
    match text {
        Some(s) => Some(s@),
        None => None,
    }
}

/// Whether two optional paths are the same.
pub(crate) fn roots_match(current: &Option<String>, root: &Option<String>) -> (same: bool)
    ensures
        same == root_matches(optional_text(*current), optional_text(*root)),
{
    match (current, root) {
        (Some(a), Some(b)) => paths_equal(a.as_str(), b.as_str()),
        (None, None) => true,
        _ => false,
    }
}

} // verus!
