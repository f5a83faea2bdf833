//! `rebase`: reapply commits on top of another base tip in every child
//! repository.

use crate::git::{args_of, views, GitOutput, Repo};
use crate::render::{Failed, Rendered};
use crate::report::{FailureModel, FailureReport, Streams, SuccessModel, SuccessReport};
use crate::workspace::{aggregated, policy_outcomes, run_reported};
use vstd::prelude::*;

verus! {

/// Reapply commits on top of another base tip.
pub struct RebaseArgs {
    /// Upstream branch to compare against
    pub upstream: String,
}

/// The arguments of the rebase.
pub fn invocation(args: &RebaseArgs) -> (r: Vec<String>)
    ensures
        views(r@) == seq!["rebase"@, args.upstream@],
{
    let r = args_of(&vec!["rebase", args.upstream.as_str()]);
    assert(views(r@) =~= seq!["rebase"@, args.upstream@]);
    r
}

/// The failure report of a rebase, which succeeds quietly.
pub open spec fn rebase_failure() -> FailureModel {
    FailureModel::Line(Streams::StderrThenStdout, "git rebase failed"@)
}

/// The rebase in each child repository (`outputs[i]` from `repos[i]`),
/// aggregated over the repositories.
pub fn run(repos: &Vec<Repo>, outputs: &Vec<GitOutput>) -> (r: Result<Rendered, Failed>)
    requires
        repos@.len() == outputs@.len(),
    ensures
        aggregated(policy_outcomes(SuccessModel::Quiet, rebase_failure(), repos@, outputs@), repos@.len(), r),
{
    let success = SuccessReport::quiet();
    let failure = FailureReport::line(Streams::StderrThenStdout, "git rebase failed");
    run_reported(repos, outputs, &success, &failure)
}

} // verus!
