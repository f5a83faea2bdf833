//! `commit`: record the staged changes of every child repository that has
//! some, with one message.

use crate::git::{args_of, stderr, views, GitOutput, Repo};
use crate::render::{Failed, Rendered, RunError};
use crate::report::{FailureModel, FailureReport, OnEmpty, Streams, SuccessModel, SuccessReport};
use crate::text::{chars_of, extend, lit, string_of, trim};
use crate::workspace::{aggregated, policy_outcomes, run_reported};
use vstd::prelude::*;

verus! {

/// Record changes to the repositories.
pub struct CommitArgs {
    /// Use <msg> as the commit message
    pub message: String,
}

/// The arguments of the staged-changes check.
pub open spec fn dirty_query() -> Seq<Seq<char>> {
    seq!["diff"@, "--cached"@, "--quiet"@]
}

/// The arguments of the staged-changes check.
pub fn dirty_args() -> (r: Vec<String>)
    ensures
        views(r@) == dirty_query(),
{
    let r = args_of(&vec!["diff", "--cached", "--quiet"]);
    assert(views(r@) =~= dirty_query());
    r
}

/// Whether the check finds staged changes: exit 1 yes, exit 0 no, any
/// other exit an error.
pub open spec fn dirty_of(path: Seq<char>, o: GitOutput) -> Result<bool, Seq<char>> {
    if o.code == Some(0i32) {
        Ok(false)
    } else if o.code == Some(1i32) {
        Ok(true)
    } else {
        Err("fatal: git diff --cached --quiet failed for '"@ + path + "': "@ + trim(o.stderr@))
    }
}

/// Whether the staged-changes check of the repository at `repo_path`
/// found staged changes.
pub fn is_dirty(repo_path: &str, output: &GitOutput) -> (r: Result<bool, String>)
    ensures
        match dirty_of(repo_path@, *output) {
            Ok(b) => r == Ok::<bool, String>(b),
            Err(e) => r matches Err(m) && m@ == e,
        },
{
    match output.code {
        Some(0) => Ok(false),
        Some(1) => Ok(true),
        _ => {
            let mut m = lit("fatal: git diff --cached --quiet failed for '");
            extend(&mut m, &chars_of(repo_path));
            extend(&mut m, &lit("': "));
            extend(&mut m, &stderr(output));
            Err(string_of(&m))
        },
    }
}

/// The error when no repository has staged changes.
pub open spec fn nothing_to_commit() -> Seq<char> {
    "error: nothing to commit, working tree clean"@
}

/// The repositories with staged changes, in order.
pub open spec fn dirty_repos(repos: Seq<Repo>, outputs: Seq<GitOutput>) -> Seq<Repo>
    decreases repos.len(),
{
    if repos.len() == 0 || outputs.len() != repos.len() {
        Seq::empty()
    } else {
        let rest = dirty_repos(repos.drop_last(), outputs.drop_last());
        if dirty_of(repos.last().path@, outputs.last()) == Ok::<bool, Seq<char>>(true) {
            rest.push(repos.last())
        } else {
            rest
        }
    }
}

/// The repositories to commit in, from each one's staged-changes check
/// (`outputs[i]` from `repos[i]`): those with staged changes, unless a
/// check failed (the first failure's error) or none has any.
pub fn select_dirty(repos: &Vec<Repo>, outputs: &Vec<GitOutput>) -> (r: Result<Vec<Repo>, String>)
    requires
        repos@.len() == outputs@.len(),
    ensures
        match r {
            Ok(d) => (forall|k: int| 0 <= k < repos@.len() ==> #[trigger] dirty_of(repos@[k].path@, outputs@[k]) is Ok)
                && d@.len() > 0 && d@.len() == dirty_repos(repos@, outputs@).len()
                && forall|k: int| 0 <= k < d@.len() ==> #[trigger] d@[k].name@ == dirty_repos(repos@, outputs@)[k].name@
                    && d@[k].path@ == dirty_repos(repos@, outputs@)[k].path@,
            Err(e) => (exists|k: int|
                0 <= k < repos@.len() && (#[trigger] dirty_of(repos@[k].path@, outputs@[k])) == Err::<bool, Seq<char>>(e@)
                    && forall|j: int| 0 <= j < k ==> dirty_of(repos@[j].path@, outputs@[j]) is Ok)
                || ((forall|k: int| 0 <= k < repos@.len() ==> #[trigger] dirty_of(repos@[k].path@, outputs@[k]) is Ok)
                    && dirty_repos(repos@, outputs@).len() == 0 && e@ == nothing_to_commit()),
        },
{
    let mut dirty: Vec<Repo> = Vec::new();
    let mut i: usize = 0;
    while i < repos.len()
        invariant
            i <= repos.len(),
            repos@.len() == outputs@.len(),
            forall|k: int| 0 <= k < i ==> #[trigger] dirty_of(repos@[k].path@, outputs@[k]) is Ok,
            dirty@.len() == dirty_repos(repos@.take(i as int), outputs@.take(i as int)).len(),
            forall|k: int| 0 <= k < dirty@.len() ==> #[trigger] dirty@[k].name@ == dirty_repos(
                repos@.take(i as int),
                outputs@.take(i as int),
            )[k].name@ && dirty@[k].path@ == dirty_repos(repos@.take(i as int), outputs@.take(i as int))[k].path@,
        decreases repos.len() - i,
    {
        assert(repos@.take(i + 1).drop_last() =~= repos@.take(i as int));
        assert(outputs@.take(i + 1).drop_last() =~= outputs@.take(i as int));
        match is_dirty(repos[i].path.as_str(), &outputs[i]) {
            Ok(true) => {
                dirty.push(
                    Repo {
                        name: string_of(&chars_of(repos[i].name.as_str())),
                        path: string_of(&chars_of(repos[i].path.as_str())),
                    },
                );
            },
            Ok(false) => {},
            Err(e) => {
                return Err(e);
            },
        }
        i += 1;
    }
    assert(repos@.take(repos.len() as int) =~= repos@);
    assert(outputs@.take(repos.len() as int) =~= outputs@);
    if dirty.len() == 0 {
        return Err(string_of(&lit("error: nothing to commit, working tree clean")));
    }
    Ok(dirty)
}

/// The arguments of the commit.
pub fn invocation(args: &CommitArgs) -> (r: Vec<String>)
    ensures
        views(r@) == seq!["commit"@, "-m"@, args.message@],
{
    let r = args_of(&vec!["commit", "-m", args.message.as_str()]);
    assert(views(r@) =~= seq!["commit"@, "-m"@, args.message@]);
    r
}

/// The success report of a commit: git's first stdout line, else `git
/// commit succeeded`.
pub open spec fn commit_success() -> SuccessModel {
    SuccessModel::Line(Streams::StdoutOnly, Some("git commit succeeded"@))
}

/// The failure report of a commit: git's first stderr line, else `git
/// commit failed`.
pub open spec fn commit_failure() -> FailureModel {
    FailureModel::Line(Streams::StderrOnly, "git commit failed"@)
}

/// The commit in each repository with staged changes (`outputs[i]` from
/// `dirty[i]`), aggregated over those repositories.
pub fn run(dirty: &Vec<Repo>, outputs: &Vec<GitOutput>) -> (r: Result<Rendered, Failed>)
    requires
        dirty@.len() == outputs@.len(),
    ensures
        aggregated(policy_outcomes(commit_success(), commit_failure(), dirty@, outputs@), dirty@.len(), r),
{
    let success = SuccessReport::line(
        Streams::StdoutOnly,
        OnEmpty::Text(string_of(&lit("git commit succeeded"))),
    );
    let failure = FailureReport::line(Streams::StderrOnly, "git commit failed");
    run_reported(dirty, outputs, &success, &failure)
}

} // verus!
