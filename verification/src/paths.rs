//! Paths as the commands show them: relative to the working directory
//! where possible, in git's forward-slash spelling.

use crate::git::{git_style_path, spec_git_style_path};
use crate::text::{chars_of, string_of};
use vstd::prelude::*;

verus! {

/// The path `pathdiff::diff_paths` computes from `base` to `path`, as text.
pub uninterp spec fn relative_path(path: Seq<char>, base: Seq<char>) -> Option<Seq<char>>;

/// `pathdiff::diff_paths(path, base)`, displayed: the relative path that
/// leads from `base` to `path`, or `None` where there is none. The contract
/// names the result as a function of the two paths and says no more of it.
#[verifier::external_body]
fn diff_paths(path: &str, base: &str) -> (r: Option<String>)
    ensures
        match r {
            Some(s) => relative_path(path@, base@) == Some(s@),
            None => relative_path(path@, base@) is None,
        },
{
    match pathdiff::diff_paths(std::path::Path::new(path), std::path::Path::new(base)) {
        Some(p) => Some(p.display().to_string()),
        None => None,
    }
}

/// The path to show for `path`: relative to `base` where a relative path
/// exists, else `path` itself.
pub open spec fn shown_prefix(path: Seq<char>, base: Seq<char>) -> Seq<char> {
    match relative_path(path, base) {
        Some(p) => p,
        None => path,
    }
}

/// The path to show for `path`, seen from `base`.
pub fn prefix_from(path: &str, base: &str) -> (r: Vec<char>)
    ensures
        r@ == shown_prefix(path@, base@),
{
    match diff_paths(path, base) {
        Some(p) => chars_of(p.as_str()),
        None => chars_of(path),
    }
}

/// A repository-relative path of the repository at `repo_path`, as shown
/// from `working_dir`: below the repository's shown path, in git's
/// spelling.
pub open spec fn shown_path(repo_path: Seq<char>, working_dir: Seq<char>, rel: Seq<char>) -> Seq<
    char,
> {
    spec_git_style_path(path_join(shown_prefix(repo_path, working_dir), rel))
}

/// A repository-relative path as shown from the working directory.
pub fn show_path(prefix: &Vec<char>, rel: &str) -> (r: Vec<char>)
    ensures
        r@ == spec_git_style_path(path_join(prefix@, rel@)),
{
    chars_of(git_style_path(join_path(string_of(prefix).as_str(), rel).as_str()).as_str())
}

/// The path `Path::join` gives for `path` below `base`, as text.
pub uninterp spec fn path_join(base: Seq<char>, path: Seq<char>) -> Seq<char>;

/// `std::path::Path::join(base, path)`, displayed: `path` below `base`,
/// or `path` itself when it is absolute. The contract names the result as
/// a function of the two paths.
#[verifier::external_body]
pub(crate) fn join_path(base: &str, path: &str) -> (r: String)
    ensures
        r@ == path_join(base@, path@),
{
    std::path::Path::new(base).join(path).display().to_string()
}


/// The last component of a path as `Path::file_name` gives it, as text.
pub uninterp spec fn path_file_name(path: Seq<char>) -> Option<Seq<char>>;

/// `std::path::Path::file_name`, displayed: the final component of the
/// path, or `None` when it ends in `..` or has no components. The contract
/// names the result as a function of the path.
#[verifier::external_body]
pub(crate) fn file_name_of(path: &str) -> (r: Option<String>)
    ensures
        match r {
            Some(s) => path_file_name(path@) == Some(s@),
            None => path_file_name(path@) is None,
        },
{
    match std::path::Path::new(path).file_name() {
        Some(n) => Some(n.to_string_lossy().into_owned()),
        None => None,
    }
}

/// The path without its last component, as `Path::parent` gives it, as
/// text.
pub uninterp spec fn path_parent(path: Seq<char>) -> Option<Seq<char>>;

/// `std::path::Path::parent`, displayed: the path without its final
/// component, or `None` for a root or an empty path. The contract names
/// the result as a function of the path.
#[verifier::external_body]
pub(crate) fn parent_of(path: &str) -> (r: Option<String>)
    ensures
        match r {
            Some(s) => path_parent(path@) == Some(s@),
            None => path_parent(path@) is None,
        },
{
    match std::path::Path::new(path).parent() {
        Some(p) => Some(p.display().to_string()),
        None => None,
    }
}

} // verus!
