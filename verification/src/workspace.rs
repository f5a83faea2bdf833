//! Running one git invocation in each child repository and aggregating
//! what each reported.

use crate::git::{views, GitOutput, OutcomeView, Repo, RepoOutcome};
use crate::render::{aggregate, outcome_pairs, outcome_views, outcomes, Failed, Rendered};
use crate::report::{
    command_result, reported_outcome, FailureModel, FailureReport, OnEmpty, SuccessModel,
    SuccessReport,
};
use crate::text::{chars_of, string_of};
use vstd::prelude::*;

verus! {

/// The outcome each repository's output gives under a report policy.
pub open spec fn policy_outcomes(
    success: SuccessModel,
    failure: FailureModel,
    repos: Seq<Repo>,
    outputs: Seq<GitOutput>,
) -> Seq<OutcomeView> {
    Seq::new(repos.len(), |k: int| reported_outcome(success, failure, repos[k], outputs[k]))
}

/// What aggregating outcomes over `total` repositories gives: the success
/// and skip lines, and a failure carrying them when any repository
/// failed.
pub open spec fn aggregated(os: Seq<OutcomeView>, total: nat, r: Result<Rendered, Failed>) -> bool {
    let (out, err, failures) = aggregate(os, total);
    match r {
        Ok(x) => outcome_pairs(os, 2).len() == 0 && x.stdout@ == out && x.stderr@ == err
            && x.pager is None,
        Err(f) => outcome_pairs(os, 2).len() > 0 && f.message@ == failures && f.rendered.stdout@
            == out && f.rendered.stderr@ == err && f.rendered.pager is None,
    }
}

fn copy_success(s: &SuccessReport) -> (r: SuccessReport)
    ensures
        r@ == s@,
{
    match s {
        SuccessReport::Quiet => SuccessReport::Quiet,
        SuccessReport::Line(st, OnEmpty::Quiet) => SuccessReport::Line(*st, OnEmpty::Quiet),
        SuccessReport::Line(st, OnEmpty::Text(t)) => SuccessReport::Line(
            *st,
            OnEmpty::Text(string_of(&chars_of(t.as_str()))),
        ),
    }
}

fn copy_failure(f: &FailureReport) -> (r: FailureReport)
    ensures
        r@ == f@,
{
    match f {
        FailureReport::Detailed(c) => FailureReport::Detailed(string_of(&chars_of(c.as_str()))),
        FailureReport::Line(st, t) => FailureReport::Line(*st, string_of(&chars_of(t.as_str()))),
    }
}

/// The outcomes of one invocation in each repository (`outputs[i]` from
/// `repos[i]`) under a report policy.
pub fn reported_outcomes(
    repos: &Vec<Repo>,
    outputs: &Vec<GitOutput>,
    success: &SuccessReport,
    failure: &FailureReport,
) -> (r: Vec<RepoOutcome>)
    requires
        repos@.len() == outputs@.len(),
    ensures
        outcome_views(r@) == policy_outcomes(success@, failure@, repos@, outputs@),
{
    let mut results: Vec<RepoOutcome> = Vec::new();
    let mut i: usize = 0;
    while i < repos.len()
        invariant
            i <= repos.len(),
            repos@.len() == outputs@.len(),
            outcome_views(results@) == policy_outcomes(success@, failure@, repos@, outputs@).take(
                i as int,
            ),
        decreases repos.len() - i,
    {
        let o = command_result(&repos[i], &outputs[i], copy_success(success), copy_failure(failure));
        let ghost before = outcome_views(results@);
        results.push(o);
        assert(outcome_views(results@) =~= before.push(o@));
        assert(policy_outcomes(success@, failure@, repos@, outputs@).take(i + 1) =~= policy_outcomes(
            success@,
            failure@,
            repos@,
            outputs@,
        ).take(i as int).push(o@));
        i += 1;
    }
    assert(policy_outcomes(success@, failure@, repos@, outputs@).take(repos.len() as int)
        =~= policy_outcomes(success@, failure@, repos@, outputs@));
    results
}

/// One invocation run in each repository (`outputs[i]` from `repos[i]`),
/// reported under a policy and aggregated over those repositories.
pub fn run_reported(
    repos: &Vec<Repo>,
    outputs: &Vec<GitOutput>,
    success: &SuccessReport,
    failure: &FailureReport,
) -> (r: Result<Rendered, Failed>)
    requires
        repos@.len() == outputs@.len(),
    ensures
        aggregated(policy_outcomes(success@, failure@, repos@, outputs@), repos@.len(), r),
{
    let results = reported_outcomes(repos, outputs, success, failure);
    outcomes(&results, repos.len())
}

/// `args` followed by `more`.
pub fn appended(args: Vec<String>, more: &Vec<String>) -> (r: Vec<String>)
    ensures
        views(r@) == views(args@) + views(more@),
{
    let mut r = args;
    let ghost head = views(r@);
    let mut i: usize = 0;
    while i < more.len()
        invariant
            i <= more.len(),
            views(r@) == head + views(more@).take(i as int),
        decreases more.len() - i,
    {
        let ghost before = views(r@);
        r.push(string_of(&chars_of(more[i].as_str())));
        assert(views(r@) =~= before.push(more@[i as int]@));
        assert(views(more@).take(i + 1) =~= views(more@).take(i as int).push(more@[i as int]@));
        i += 1;
    }
    assert(views(more@).take(more.len() as int) =~= views(more@));
    r
}

/// Pushes `a` when `on`.
pub fn push_if(args: &mut Vec<String>, on: bool, a: &str)
    ensures
        views(final(args)@) == views(old(args)@) + if on {
            seq![a@]
        } else {
            Seq::empty()
        },
{
    if on {
        args.push(string_of(&chars_of(a)));
    }
    assert(views(final(args)@) =~= views(old(args)@) + if on {
        seq![a@]
    } else {
        Seq::empty()
    });
}

/// The optional flag `a` as a list.
pub open spec fn flag(on: bool, a: Seq<char>) -> Seq<Seq<char>> {
    if on {
        seq![a]
    } else {
        Seq::empty()
    }
}

/// A flag list holds an argument exactly when the flag is on and the
/// argument is the flag.
pub proof fn flag_contains(on: bool, a: Seq<char>, x: Seq<char>)
    ensures
        flag(on, a).contains(x) == (on && x == a),
{
    if on {
        assert(flag(on, a)[0] == a);
    }
}

/// A one-argument list holds exactly that argument.
pub proof fn single_contains(a: Seq<char>, x: Seq<char>)
    ensures
        seq![a].contains(x) == (x == a),
{
    assert(seq![a][0] == a);
}

} // verus!
