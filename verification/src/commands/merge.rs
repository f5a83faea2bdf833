//! `merge`: join a commit's history into the current branch of every child
//! repository.

use crate::git::{args_of, views, GitOutput, Repo};
use crate::render::{Failed, Rendered};
use crate::report::{FailureModel, FailureReport, OnEmpty, Streams, SuccessModel, SuccessReport};
use crate::workspace::{aggregated, policy_outcomes, run_reported};
use vstd::prelude::*;

verus! {

/// Join two or more development histories together.
pub struct MergeArgs {
    /// The commit, usually a branch head, to merge into the current branch
    pub commit_ish: String,
}

/// The arguments of the merge.
pub fn invocation(commit_ish: &str) -> (r: Vec<String>)
    ensures
        views(r@) == seq!["merge"@, commit_ish@],
{
    let r = args_of(&vec!["merge", commit_ish]);
    assert(views(r@) =~= seq!["merge"@, commit_ish@]);
    r
}

/// The success report of a merge: the first line git says, on either
/// stream.
pub open spec fn merge_success() -> SuccessModel {
    SuccessModel::Line(Streams::StdoutThenStderr, None)
}

/// The failure report of a merge: the first line git says, error stream
/// first.
pub open spec fn merge_failure() -> FailureModel {
    FailureModel::Line(Streams::StderrThenStdout, "git merge failed"@)
}

/// The merge in each child repository (`outputs[i]` from `repos[i]`),
/// aggregated over the repositories.
pub fn run(repos: &Vec<Repo>, outputs: &Vec<GitOutput>) -> (r: Result<Rendered, Failed>)
    requires
        repos@.len() == outputs@.len(),
    ensures
        aggregated(policy_outcomes(merge_success(), merge_failure(), repos@, outputs@), repos@.len(), r),
{
    let success = SuccessReport::line(Streams::StdoutThenStderr, OnEmpty::Quiet);
    let failure = FailureReport::line(Streams::StderrThenStdout, "git merge failed");
    run_reported(repos, outputs, &success, &failure)
}

} // verus!
