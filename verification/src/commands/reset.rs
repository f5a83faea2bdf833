//! `reset`: set `HEAD` or the index to a known state in every child
//! repository.

use crate::git::{views, GitOutput, Repo};
use crate::render::{Failed, Rendered};
use crate::report::{FailureModel, FailureReport, OnEmpty, Streams, SuccessModel, SuccessReport};
use crate::text::{chars_of, string_of};
use crate::workspace::{aggregated, policy_outcomes, run_reported};
use vstd::prelude::*;

verus! {

/// How far a reset goes, as git names its modes.
#[derive(Clone, Copy, Debug, PartialEq, Eq, Structural)]
pub enum ResetMode {
    /// Move `HEAD` only
    Soft,
    /// Move `HEAD` and reset the index (git's default)
    Mixed,
    /// Move `HEAD` and reset the index and the working tree
    Hard,
    /// Reset, keeping local changes that the reset does not touch
    Merge,
    /// Reset, refusing when a local change would be lost
    Keep,
}

/// Set `HEAD` or the index to a known state.
pub struct ResetArgs {
    pub soft: bool,
    pub mixed: bool,
    pub hard: bool,
    pub merge: bool,
    pub keep: bool,
    /// The commit to reset to (`HEAD` when not given)
    pub commit: Option<String>,
}

/// The mode the flags ask for: the first one set, in the order soft,
/// mixed, hard, merge, keep; none when no flag is set.
pub open spec fn mode_of(args: ResetArgs) -> Option<ResetMode> {
    if args.soft {
        Some(ResetMode::Soft)
    } else if args.mixed {
        Some(ResetMode::Mixed)
    } else if args.hard {
        Some(ResetMode::Hard)
    } else if args.merge {
        Some(ResetMode::Merge)
    } else if args.keep {
        Some(ResetMode::Keep)
    } else {
        None
    }
}

impl ResetArgs {
    /// The mode the flags ask for.
    pub fn mode(&self) -> (r: Option<ResetMode>)
        ensures
            r == mode_of(*self),
    {
        if self.soft {
            Some(ResetMode::Soft)
        } else if self.mixed {
            Some(ResetMode::Mixed)
        } else if self.hard {
            Some(ResetMode::Hard)
        } else if self.merge {
            Some(ResetMode::Merge)
        } else if self.keep {
            Some(ResetMode::Keep)
        } else {
            None
        }
    }
}

/// The flag of a mode.
pub open spec fn mode_flag(mode: ResetMode) -> Seq<char> {
    match mode {
        ResetMode::Soft => "--soft"@,
        ResetMode::Mixed => "--mixed"@,
        ResetMode::Hard => "--hard"@,
        ResetMode::Merge => "--merge"@,
        ResetMode::Keep => "--keep"@,
    }
}

/// `reset`, the mode's flag when one is given, then the commit when one
/// is given.
pub open spec fn reset_query(mode: Option<ResetMode>, commit: Option<Seq<char>>) -> Seq<Seq<char>> {
    seq!["reset"@] + match mode {
        Some(m) => seq![mode_flag(m)],
        None => Seq::empty(),
    } + match commit {
        Some(c) => seq![c],
        None => Seq::empty(),
    }
}

/// A reset passes the flag of exactly the mode asked for, and none
/// without a mode (the commit aside): a soft reset never passes `--hard`.
pub proof fn reset_passes_exactly_its_mode(mode: Option<ResetMode>, commit: Option<Seq<char>>, m: ResetMode)
    requires
        forall|k: ResetMode| commit != Some(#[trigger] mode_flag(k)),
    ensures
        reset_query(mode, commit).contains(mode_flag(m)) == (mode == Some(m)),
{
    broadcast use vstd::seq_lib::lemma_seq_concat_contains_all_elements;

    reveal_strlit("reset");
    reveal_strlit("--soft");
    reveal_strlit("--mixed");
    reveal_strlit("--hard");
    reveal_strlit("--merge");
    reveal_strlit("--keep");
    let f = mode_flag(m);
    assert(f != "reset"@) by {
        assert(f[0] != "reset"@[0]);
    }
    assert(!seq!["reset"@].contains(f)) by {
        if seq!["reset"@].contains(f) {
            assert(seq!["reset"@][0] == "reset"@);
        }
    }
    let fm = match mode {
        Some(k) => seq![mode_flag(k)],
        None => Seq::<Seq<char>>::empty(),
    };
    let fc = match commit {
        Some(c) => seq![c],
        None => Seq::<Seq<char>>::empty(),
    };
    assert(!fc.contains(f)) by {
        if fc.contains(f) {
            assert(fc[0] == commit->0);
            assert(commit != Some(mode_flag(m)));
        }
    }
    match mode {
        Some(k) => {
            assert(fm[0] == mode_flag(k));
            if k != m {
                assert(mode_flag(k) != f) by {
                    let g = mode_flag(k);
                    assert(g.len() != f.len() || g[2] != f[2] || g[3] != f[3]);
                }
                assert(!fm.contains(f)) by {
                    if fm.contains(f) {
                        assert(fm[0] == f);
                    }
                }
            }
        },
        None => {},
    }
    assert(reset_query(mode, commit) == seq!["reset"@] + fm + fc);
}

fn flag(mode: ResetMode) -> (r: String)
    ensures
        r@ == mode_flag(mode),
{
    match mode {
        ResetMode::Soft => string_of(&chars_of("--soft")),
        ResetMode::Mixed => string_of(&chars_of("--mixed")),
        ResetMode::Hard => string_of(&chars_of("--hard")),
        ResetMode::Merge => string_of(&chars_of("--merge")),
        ResetMode::Keep => string_of(&chars_of("--keep")),
    }
}

/// The arguments of the reset.
pub fn invocation(mode: Option<ResetMode>, commit: &Option<String>) -> (r: Vec<String>)
    ensures
        views(r@) == reset_query(mode, commit.deep_view()),
{
    let mut r: Vec<String> = Vec::new();
    r.push(string_of(&chars_of("reset")));
    match mode {
        Some(m) => r.push(flag(m)),
        None => {},
    }
    match commit {
        Some(c) => r.push(string_of(&chars_of(c.as_str()))),
        None => {},
    }
    assert(views(r@) =~= reset_query(mode, commit.deep_view()));
    r
}

/// The success report of a reset: the first line git says, on either
/// stream.
pub open spec fn reset_success() -> SuccessModel {
    SuccessModel::Line(Streams::StdoutThenStderr, None)
}

/// The failure report of a reset: the first line git says, error stream
/// first.
pub open spec fn reset_failure() -> FailureModel {
    FailureModel::Line(Streams::StderrThenStdout, "git reset failed"@)
}

/// The reset in each child repository (`outputs[i]` from `repos[i]`),
/// aggregated over the repositories.
pub fn run(repos: &Vec<Repo>, outputs: &Vec<GitOutput>) -> (r: Result<Rendered, Failed>)
    requires
        repos@.len() == outputs@.len(),
    ensures
        aggregated(policy_outcomes(reset_success(), reset_failure(), repos@, outputs@), repos@.len(), r),
{
    let success = SuccessReport::line(Streams::StdoutThenStderr, OnEmpty::Quiet);
    let failure = FailureReport::line(Streams::StderrThenStdout, "git reset failed");
    run_reported(repos, outputs, &success, &failure)
}

} // verus!
