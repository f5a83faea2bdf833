//! `clone`: clone a repository with git's own output and prompts.

use crate::cli::SilentError;
use crate::git::views;
use crate::render::Rendered;
use crate::text::{chars_of, string_of};
use vstd::prelude::*;

verus! {

/// Clone a repository into a new directory.
pub struct CloneArgs {
    /// The (possibly remote) <repository> to clone from
    pub repository: String,
    /// The name of a new directory to clone into
    pub directory: Option<String>,
}

/// The arguments of the clone: `clone`, the repository, the directory
/// when given.
pub open spec fn clone_query(repository: Seq<char>, directory: Option<Seq<char>>) -> Seq<Seq<char>> {
    seq!["clone"@, repository] + match directory {
        Some(d) => seq![d],
        None => Seq::empty(),
    }
}

/// The arguments of the clone.
pub fn invocation(args: &CloneArgs) -> (r: Vec<String>)
    ensures
        views(r@) == clone_query(args.repository@, args.directory.deep_view()),
{
    let mut r: Vec<String> = Vec::new();
    r.push(string_of(&chars_of("clone")));
    r.push(string_of(&chars_of(args.repository.as_str())));
    match &args.directory {
        Some(d) => r.push(string_of(&chars_of(d.as_str()))),
        None => {},
    }
    proof {
        reveal_strlit("clone");
    }
    assert(views(r@) =~= clone_query(args.repository@, args.directory.deep_view()));
    r
}

/// The result of the clone from whether git succeeded: nothing to render,
/// or a silent failure, git having reported it.
pub fn run(succeeded: bool) -> (r: Result<Rendered, SilentError>)
    ensures
        succeeded ==> (r matches Ok(x) && x.stdout@.len() == 0 && x.stderr@.len() == 0
            && x.pager is None),
        !succeeded ==> r is Err,
{
    if succeeded {
        Ok(Rendered { stdout: String::new(), stderr: String::new(), pager: None })
    } else {
        Err(SilentError)
    }
}

} // verus!
