//! Paths as text. What the parent of a path is, and how a name is joined to
//! a path, is left to the standard library, which knows the separators and
//! roots of the platform that the library is built for.

use vstd::prelude::*;

verus! {

/// The parent of a path as `std::path::Path::parent` gives it: the path
/// without its last component, or `None` where it ends in a root or is
/// empty. Path and parent are taken as text.
pub uninterp spec fn path_parent(path: Seq<char>) -> Option<Seq<char>>;

/// The path that `std::path::Path::join` makes of a base and a name, all
/// three taken as text.
pub uninterp spec fn path_join(base: Seq<char>, name: Seq<char>) -> Seq<char>;

/// Calls `std::path::Path::parent`. Nothing is proved of that call: the
/// contract gives what it returns the name `path_parent` and says no more.
/// The parent of a path that is text is text again, so nothing is lost when
/// it is handed back as a `String`.
#[verifier::external_body]
pub(crate) fn parent_of(path: &str) -> (parent: Option<String>)
    ensures
        match parent {
            Some(directory) => path_parent(path@) == Some(directory@),
            None => path_parent(path@) is None,
        },
{
    match std::path::Path::new(path).parent() {
        Some(directory) => Some(directory.to_string_lossy().into_owned()),
        None => None,
    }
}

/// Calls `std::path::Path::join`. Nothing is proved of that call: the
/// contract gives what it returns the name `path_join` and says no more.
/// What is joined from text is text again.
#[verifier::external_body]
pub(crate) fn join(base: &str, name: &str) -> (joined: String)
    ensures
        joined@ == path_join(base@, name@),
{
    std::path::Path::new(base).join(name).to_string_lossy().into_owned()
}

} // verus!
