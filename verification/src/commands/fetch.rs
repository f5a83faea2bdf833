//! `fetch`: download objects and refs from a remote in every child
//! repository.

use crate::git::{GitOutput, Repo};
use crate::render::{Failed, Rendered};
use crate::report::{FailureModel, FailureReport, Streams, SuccessModel, SuccessReport};
use crate::workspace::{aggregated, policy_outcomes, run_reported};
use vstd::prelude::*;

verus! {

/// Download objects and refs from another repository.
pub struct FetchArgs {
    /// The "remote" repository to fetch from
    pub repository: Option<String>,
    /// Which refs to fetch
    pub refspecs: Vec<String>,
}

/// The failure report of a fetch, which succeeds quietly.
pub open spec fn fetch_failure() -> FailureModel {
    FailureModel::Line(Streams::StderrThenStdout, "git fetch failed"@)
}

/// The fetch in each child repository (`outputs[i]` from `repos[i]`),
/// aggregated over the repositories.
pub fn run(repos: &Vec<Repo>, outputs: &Vec<GitOutput>) -> (r: Result<Rendered, Failed>)
    requires
        repos@.len() == outputs@.len(),
    ensures
        aggregated(policy_outcomes(SuccessModel::Quiet, fetch_failure(), repos@, outputs@), repos@.len(), r),
{
    let success = SuccessReport::quiet();
    let failure = FailureReport::line(Streams::StderrThenStdout, "git fetch failed");
    run_reported(repos, outputs, &success, &failure)
}

} // verus!
