//! Where the backend's sources lie, seen from the directory the shell was
//! built in.
//!
//! Splitting and joining paths is left to `std::path`; this module only says
//! which directory is looked for.

use std::path::Path;
use vstd::prelude::*;

verus! {

/// What `std::path::Path::parent` returns for `path`, on the platform the
/// library is compiled for: the path without its last component, or `None`
/// where there is nothing above it.
pub uninterp spec fn parent_path(path: Seq<char>) -> Option<Seq<char>>;

/// What `std::path::Path::join` returns for `base` and `child`, on the
/// platform the library is compiled for.
pub uninterp spec fn joined_path(base: Seq<char>, child: Seq<char>) -> Seq<char>;

/// The name of the backend's directory below the project root.
pub open spec fn backend_dir_name() -> Seq<char> {
    "backend"@
}

/// The directory taken for the shell's own when none is known.
pub open spec fn default_build_dir() -> Seq<char> {
    "."@
}

/// The backend's directory: the directory named `backend` in the project
/// root, which is the grandparent of the shell's build directory. `None`
/// where the build directory has no grandparent.
pub open spec fn backend_dir_of(build_dir: Seq<char>) -> Option<Seq<char>> {
    match parent_path(build_dir) {
        Some(parent) => match parent_path(parent) {
            Some(root) => Some(joined_path(root, backend_dir_name())),
            None => None,
        },
        None => None,
    }
}

/// Calls `std::path::Path::parent` on `path` and hands the parent back as a
/// string. Nothing is proved of it: the contract only names the result, so
/// that callers can say which path they asked the parent of. A parent of a
/// path given as a string is itself valid text, so the conversion loses
/// nothing.
#[verifier::external_body]
fn parent_of(path: &str) -> (parent: Option<String>)
    ensures
        parent.deep_view() == parent_path(path@),
{
    match Path::new(path).parent() {
        Some(p) => Some(p.to_string_lossy().into_owned()),
        None => None,
    }
}

/// Calls `std::path::Path::join` on `base` with `child` and hands the joined
/// path back as a string. Nothing is proved of it: the contract only names the
/// result.
#[verifier::external_body]
fn join_path(base: &str, child: &str) -> (joined: String)
    ensures
        joined@ == joined_path(base@, child@),
{
    Path::new(base).join(child).to_string_lossy().into_owned()
}

/// Places the backend's directory below a project root that has been found,
/// and passes on that none was found.
pub fn backend_dir_under(root: Option<String>) -> (dir: Option<String>)
    ensures
        dir.deep_view() == match root {
            Some(r) => Some(joined_path(r@, backend_dir_name())),
            None => None,
        },
{
    match root {
        Some(r) => Some(join_path(r.as_str(), "backend")),
        None => None,
    }
}

/// Finds the project root, two levels above the shell's build directory.
pub fn project_root(build_dir: &str) -> (root: Option<String>)
    ensures
        root.deep_view() == match parent_path(build_dir@) {
            Some(parent) => parent_path(parent),
            None => None,
        },
{
    match parent_of(build_dir) {
        Some(parent) => parent_of(parent.as_str()),
        None => None,
    }
}

/// Finds the backend's directory from the shell's build directory.
pub fn backend_dir(build_dir: &str) -> (dir: Option<String>)
    ensures
        dir.deep_view() == backend_dir_of(build_dir@),
{
    backend_dir_under(project_root(build_dir))
}

} // verus!
