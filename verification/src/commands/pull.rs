//! `pull`: fetch from and integrate with a remote in every child
//! repository.

use crate::git::{views, GitOutput, Repo};
use crate::render::{Failed, Rendered};
use crate::report::{FailureModel, FailureReport, OnEmpty, Streams, SuccessModel, SuccessReport};
use crate::text::{chars_of, lit, string_of};
use crate::workspace::{aggregated, policy_outcomes, run_reported};
use vstd::prelude::*;

verus! {

/// Fetch from and integrate with another repository or a local branch.
pub struct PullArgs {
    /// The "remote" repository to pull from
    pub repository: Option<String>,
    /// Which branch or other reference(s) to fetch and integrate into the
    /// current branch
    pub refspecs: Vec<String>,
}

/// `command`, the repository argument when given, then the refspecs.
pub open spec fn remote_query(command: Seq<char>, repository: Option<Seq<char>>, refspecs: Seq<Seq<char>>) -> Seq<
    Seq<char>,
> {
    seq![command] + match repository {
        Some(r) => seq![r],
        None => Seq::empty(),
    } + refspecs
}

/// `command`, the repository argument when given, then the refspecs.
pub fn remote_invocation(command: &str, repository: &Option<String>, refspecs: &Vec<String>) -> (r: Vec<
    String,
>)
    ensures
        views(r@) == remote_query(command@, repository.deep_view(), views(refspecs@)),
{
    let mut r: Vec<String> = Vec::new();
    r.push(string_of(&chars_of(command)));
    match repository {
        Some(x) => r.push(string_of(&chars_of(x.as_str()))),
        None => {},
    }
    let ghost head = views(r@);
    let mut i: usize = 0;
    while i < refspecs.len()
        invariant
            i <= refspecs.len(),
            views(r@) == head + views(refspecs@).take(i as int),
        decreases refspecs.len() - i,
    {
        let ghost before = views(r@);
        r.push(string_of(&chars_of(refspecs[i].as_str())));
        assert(views(r@) =~= before.push(refspecs@[i as int]@));
        assert(views(refspecs@).take(i + 1) =~= views(refspecs@).take(i as int).push(
            refspecs@[i as int]@,
        ));
        i += 1;
    }
    assert(views(refspecs@).take(refspecs.len() as int) =~= views(refspecs@));
    assert(views(r@) =~= remote_query(command@, repository.deep_view(), views(refspecs@)));
    r
}

/// The success report of a pull: git's first stdout line, else stderr.
pub open spec fn pull_success() -> SuccessModel {
    SuccessModel::Line(Streams::StdoutThenStderr, None)
}

/// The failure report of a pull.
pub open spec fn pull_failure() -> FailureModel {
    FailureModel::Line(Streams::StderrThenStdout, "git pull failed"@)
}

/// The pull in each child repository (`outputs[i]` from `repos[i]`),
/// aggregated over the repositories.
pub fn run(repos: &Vec<Repo>, outputs: &Vec<GitOutput>) -> (r: Result<Rendered, Failed>)
    requires
        repos@.len() == outputs@.len(),
    ensures
        aggregated(policy_outcomes(pull_success(), pull_failure(), repos@, outputs@), repos@.len(), r),
{
    let success = SuccessReport::line(Streams::StdoutThenStderr, OnEmpty::Quiet);
    let failure = FailureReport::line(Streams::StderrThenStdout, "git pull failed");
    run_reported(repos, outputs, &success, &failure)
}

} // verus!
