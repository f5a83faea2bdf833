//! `switch`: switch branches, or create one and switch to it, in every
//! child repository.

use crate::git::{args_of, views, GitOutput, OutcomeView, Repo, RepoMessage, RepoOutcome};
use crate::render::{outcome_views, outcomes, Failed, Rendered};
use crate::report::{FailureModel, FailureReport, OnEmpty, Streams, SuccessModel, SuccessReport};
use crate::text::{chars_of, lit, string_of};
use crate::workspace::{aggregated, policy_outcomes, reported_outcomes};
use vstd::prelude::*;

verus! {

/// Switch branches.
pub struct SwitchArgs {
    /// Create a new branch named <branch> before switching to the branch
    pub create: bool,
    /// Branch to switch to
    pub branch_name: String,
}

/// The arguments of the switch: `switch`, `--create` when asked, the
/// branch.
pub open spec fn switch_query(create: bool, branch: Seq<char>) -> Seq<Seq<char>> {
    if create {
        seq!["switch"@, "--create"@, branch]
    } else {
        seq!["switch"@, branch]
    }
}

/// A switch creates the branch exactly when asked: `--create` is passed
/// only with `create`, and the branch switched to is the one named.
pub proof fn switch_creates_exactly_when_asked(create: bool, branch: Seq<char>)
    requires
        branch != "--create"@,
    ensures
        switch_query(create, branch).contains("--create"@) == create,
        switch_query(create, branch).last() == branch,
        switch_query(create, branch)[0] == "switch"@,
{
    reveal_strlit("switch");
    reveal_strlit("--create");
    assert("switch"@.len() != "--create"@.len());
    let q = switch_query(create, branch);
    if create {
        assert(q[1] == "--create"@);
    } else {
        assert(!q.contains("--create"@)) by {
            if q.contains("--create"@) {
                let i = choose|i: int| 0 <= i < q.len() && q[i] == "--create"@;
                assert(i == 0 || i == 1);
            }
        }
    }
}

/// The arguments of the switch.
pub fn invocation(args: &SwitchArgs) -> (r: Vec<String>)
    ensures
        views(r@) == switch_query(args.create, args.branch_name@),
{
    let r = if args.create {
        args_of(&vec!["switch", "--create", args.branch_name.as_str()])
    } else {
        args_of(&vec!["switch", args.branch_name.as_str()])
    };
    assert(views(r@) =~= switch_query(args.create, args.branch_name@));
    r
}

/// What `regex::Regex::replace` gives for `pattern` on `text` with
/// `replacement` (`None` when the pattern does not compile).
pub uninterp spec fn regex_replaced(pattern: Seq<char>, text: Seq<char>, replacement: Seq<char>) -> Option<
    Seq<char>,
>;

/// `regex::Regex::new(pattern)` and, when it compiles, `replace(text,
/// replacement)`: the text with the leftmost match replaced. The contract
/// names the result as a function of the three strings and says no more
/// of it.
#[verifier::external_body]
fn replace_first(pattern: &str, text: &str, replacement: &str) -> (r: Option<String>)
    ensures
        match r {
            Some(s) => regex_replaced(pattern@, text@, replacement@) == Some(s@),
            None => regex_replaced(pattern@, text@, replacement@) is None,
        },
{
    match regex::Regex::new(pattern) {
        Ok(re) => Some(re.replace(text, replacement).into_owned()),
        Err(_) => None,
    }
}

/// The pattern of git's count of commits a branch is behind by.
pub open spec fn behind_count() -> Seq<char> {
    " by \\d+ commits?"@
}

/// A success message without the count of commits a branch is behind by,
/// so that repositories behind by different counts report one line.
pub open spec fn normalized(message: Seq<char>) -> Seq<char> {
    match regex_replaced(behind_count(), message, ""@) {
        Some(s) => s,
        None => message,
    }
}

/// The success message without the count of commits the branch is behind
/// by.
pub fn normalize_success_message(message: String) -> (r: String)
    ensures
        r@ == normalized(message@),
{
    match replace_first(" by \\d+ commits?", message.as_str(), "") {
        Some(s) => s,
        None => message,
    }
}

/// The success report of a switch: git's first stdout line, else stderr,
/// else `git switch succeeded`.
pub open spec fn switch_success() -> SuccessModel {
    SuccessModel::Line(Streams::StdoutThenStderr, Some("git switch succeeded"@))
}

/// The failure report of a switch.
pub open spec fn switch_failure() -> FailureModel {
    FailureModel::Line(Streams::StderrThenStdout, "git switch failed"@)
}

/// An outcome with its success message normalized.
pub open spec fn normalized_outcome(o: OutcomeView) -> OutcomeView {
    match o {
        OutcomeView::Success { repo, message } => OutcomeView::Success {
            repo,
            message: normalized(message),
        },
        _ => o,
    }
}

/// The outcomes of the switch in each repository.
pub open spec fn switch_outcomes(repos: Seq<Repo>, outputs: Seq<GitOutput>) -> Seq<OutcomeView> {
    policy_outcomes(switch_success(), switch_failure(), repos, outputs).map_values(
        |o: OutcomeView| normalized_outcome(o),
    )
}

/// The switch in each child repository (`outputs[i]` from `repos[i]`),
/// success messages normalized, aggregated over the repositories.
pub fn run(repos: &Vec<Repo>, outputs: &Vec<GitOutput>) -> (r: Result<Rendered, Failed>)
    requires
        repos@.len() == outputs@.len(),
    ensures
        aggregated(switch_outcomes(repos@, outputs@), repos@.len(), r),
{
    let success = SuccessReport::line(
        Streams::StdoutThenStderr,
        OnEmpty::Text(string_of(&lit("git switch succeeded"))),
    );
    let failure = FailureReport::line(Streams::StderrThenStdout, "git switch failed");
    let raw = reported_outcomes(repos, outputs, &success, &failure);
    let mut results: Vec<RepoOutcome> = Vec::new();
    let mut i: usize = 0;
    while i < raw.len()
        invariant
            i <= raw.len(),
            outcome_views(raw@) == policy_outcomes(switch_success(), switch_failure(), repos@, outputs@),
            outcome_views(results@) == outcome_views(raw@).take(i as int).map_values(
                |o: OutcomeView| normalized_outcome(o),
            ),
        decreases raw.len() - i,
    {
        let o = match &raw[i] {
            RepoOutcome::Success(Some(m)) => RepoOutcome::Success(
                Some(
                    RepoMessage {
                        repo: string_of(&chars_of(m.repo.as_str())),
                        message: normalize_success_message(string_of(&chars_of(m.message.as_str()))),
                    },
                ),
            ),
            RepoOutcome::Success(None) => RepoOutcome::Success(None),
            RepoOutcome::Failure(m) => RepoOutcome::Failure(
                RepoMessage {
                    repo: string_of(&chars_of(m.repo.as_str())),
                    message: string_of(&chars_of(m.message.as_str())),
                },
            ),
            RepoOutcome::Skipped(m) => RepoOutcome::Skipped(
                RepoMessage {
                    repo: string_of(&chars_of(m.repo.as_str())),
                    message: string_of(&chars_of(m.message.as_str())),
                },
            ),
        };
        let ghost before = outcome_views(results@);
        results.push(o);
        proof {
            assert(o@ == normalized_outcome(raw@[i as int]@));
            assert(outcome_views(results@) =~= before.push(o@));
            assert(outcome_views(raw@).take(i + 1).map_values(
                |o: OutcomeView| normalized_outcome(o),
            ) =~= outcome_views(raw@).take(i as int).map_values(
                |o: OutcomeView| normalized_outcome(o),
            ).push(normalized_outcome(raw@[i as int]@)));
        }
        i += 1;
    }
    assert(outcome_views(raw@).take(raw.len() as int) =~= outcome_views(raw@));
    outcomes(&results, repos.len())
}

} // verus!
