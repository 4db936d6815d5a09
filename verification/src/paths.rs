use vstd::prelude::*;
use vstd::string::StringExecFns;

verus! {

/// The parent of a path, as `std::path::Path::parent` gives it: `None`
/// for a root or an empty path.
pub uninterp spec fn path_parent(p: Seq<char>) -> Option<Seq<char>>;

/// A path joined with another, as `std::path::Path::join` does it (an
/// absolute second path replaces the first).
pub uninterp spec fn path_join(base: Seq<char>, tail: Seq<char>) -> Seq<char>;

/// `Path::new(p).parent()`, as text. The result is named by `path_parent`.
#[verifier::external_body]
pub(crate) fn parent_of(p: &str) -> (r: Option<String>)
    ensures
        match r {
            Some(s) => path_parent(p@) == Some(s@),
            None => path_parent(p@) is None,
        },
{
    std::path::Path::new(p).parent().map(|q| q.to_string_lossy().into_owned())
}

/// `Path::new(base).join(tail)`, as text. The result is named by
/// `path_join`.
#[verifier::external_body]
pub(crate) fn join_path(base: &str, tail: &str) -> (r: String)
    ensures
        r@ == path_join(base@, tail@),
{
    std::path::Path::new(base).join(tail).to_string_lossy().into_owned()
}

/// The directory of a path: its parent, or `.` when it has none.
pub open spec fn directory_of(p: Seq<char>) -> Seq<char> {
    match path_parent(p) {
        Some(d) => d,
        None => "."@,
    }
}

/// The directory of a path: its parent, or `.` when it has none.
pub fn directory(p: &str) -> (r: String)
    ensures
        r@ == directory_of(p@),
{
    match parent_of(p) {
        Some(d) => d,
        None => String::from_str("."),
    }
}

/// Whether a path is absolute, as `std::path::Path::is_absolute` decides.
pub uninterp spec fn path_absolute(p: Seq<char>) -> bool;

/// `Path::new(p).is_absolute()`. The result is named by `path_absolute`.
#[verifier::external_body]
pub(crate) fn is_absolute(p: &str) -> (r: bool)
    ensures
        r == path_absolute(p@),
{
    std::path::Path::new(p).is_absolute()
}

/// A path named relative to the file `anchor`: an absolute path stays as
/// it is, a relative one is taken from the anchor's directory.
pub open spec fn relative_to(anchor: Seq<char>, candidate: Seq<char>) -> Seq<char> {
    if path_absolute(candidate) {
        candidate
    } else {
        path_join(directory_of(anchor), candidate)
    }
}

/// Resolves a path named relative to the file `anchor`.
pub fn resolve_relative_path(anchor: &str, candidate: &str) -> (r: String)
    ensures
        r@ == relative_to(anchor@, candidate@),
{
    if is_absolute(candidate) {
        return String::from_str(candidate);
    }
    join_path(directory(anchor).as_str(), candidate)
}

/// Whether two texts name the same path, component by component, as
/// `std::path::Path`'s `==` decides.
pub uninterp spec fn same_path(a: Seq<char>, b: Seq<char>) -> bool;

/// `Path::new(a) == Path::new(b)`: the two paths compared by their
/// components. The result is named by `same_path`.
#[verifier::external_body]
pub(crate) fn paths_equal(a: &str, b: &str) -> (r: bool)
    ensures
        r == same_path(a@, b@),
{
    std::path::Path::new(a) == std::path::Path::new(b)
}

} // verus!
