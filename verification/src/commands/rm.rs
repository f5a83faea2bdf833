//! `rm`: remove paths in the child repositories that own them.

use crate::git::{args_of, views, GitOutput, Repo};
use crate::render::{Failed, Rendered};
use crate::report::{FailureModel, FailureReport, OnEmpty, Streams, SuccessModel, SuccessReport};
use crate::text::{lit, string_of};
use crate::workspace::{aggregated, appended, flag, flag_contains, policy_outcomes, push_if, run_reported, single_contains};
use vstd::prelude::*;

verus! {

/// Remove files from the working tree and from the index.
pub struct RmArgs {
    pub options: RmOptions,
    /// Files to remove
    pub paths: Vec<String>,
}

/// How to remove.
pub struct RmOptions {
    /// Allow recursive removal when a leading directory name is given
    pub recursive: bool,
    /// Override the up-to-date check
    pub force: bool,
    /// Don't actually remove any files
    pub dry_run: bool,
    /// Unstage and remove paths only from the index
    pub cached: bool,
}

/// Removing the virtual monorepo's root itself takes `-r`: the refusal
/// when it is not given.
pub fn root_removal_refusal(options: &RmOptions) -> (r: Option<String>)
    ensures
        options.recursive ==> r is None,
        !options.recursive ==> (r matches Some(m) && m@ == "error: cannot remove VMR root without -r"@),
{
    if options.recursive {
        None
    } else {
        Some(string_of(&lit("error: cannot remove VMR root without -r")))
    }
}

/// The arguments of the removal in one repository.
pub open spec fn rm_query(o: RmOptions, paths: Seq<Seq<char>>) -> Seq<Seq<char>> {
    seq!["rm"@] + flag(o.recursive, "-r"@) + flag(o.force, "--force"@) + flag(o.dry_run, "--dry-run"@)
        + flag(o.cached, "--cached"@) + seq!["--"@] + paths
}

/// A removal passes each flag exactly when its option is set (paths
/// aside): `--cached` only with `cached`, so without it git removes the
/// files from the working tree too, and with it only from the index.
pub proof fn rm_flags_follow_options(o: RmOptions, paths: Seq<Seq<char>>)
    requires
        !paths.contains("-r"@),
        !paths.contains("--force"@),
        !paths.contains("--dry-run"@),
        !paths.contains("--cached"@),
    ensures
        rm_query(o, paths).contains("--cached"@) == o.cached,
        rm_query(o, paths).contains("-r"@) == o.recursive,
        rm_query(o, paths).contains("--force"@) == o.force,
        rm_query(o, paths).contains("--dry-run"@) == o.dry_run,
        rm_query(o, paths)[0] == "rm"@,
{
    broadcast use vstd::seq_lib::lemma_seq_concat_contains_all_elements;

    reveal_strlit("rm");
    reveal_strlit("-r");
    reveal_strlit("--force");
    reveal_strlit("--dry-run");
    reveal_strlit("--cached");
    reveal_strlit("--");
    let names = seq!["rm"@, "-r"@, "--force"@, "--dry-run"@, "--cached"@, "--"@];
    assert("rm"@[0] != "-r"@[0] && "rm"@[0] != "--"@[0] && "-r"@[1] != "--"@[1]);
    assert forall|i: int, j: int| 0 <= i < j < 6 implies #[trigger] names[i] != #[trigger] names[j] by {
        if names[i].len() == names[j].len() {
            assert(names[i][0] != names[j][0] || names[i][1] != names[j][1]);
        }
    }
    let flags = seq!["-r"@, "--force"@, "--dry-run"@, "--cached"@];
    assert forall|k: int| 0 <= k < 4 implies {
        &&& !#[trigger] seq!["rm"@].contains(flags[k])
        &&& !seq!["--"@].contains(flags[k])
        &&& flag(o.recursive, "-r"@).contains(flags[k]) == (o.recursive && k == 0)
        &&& flag(o.force, "--force"@).contains(flags[k]) == (o.force && k == 1)
        &&& flag(o.dry_run, "--dry-run"@).contains(flags[k]) == (o.dry_run && k == 2)
        &&& flag(o.cached, "--cached"@).contains(flags[k]) == (o.cached && k == 3)
    } by {
        assert(flags[k] == names[k + 1]);
        assert(names[0] == "rm"@ && names[1] == "-r"@ && names[2] == "--force"@);
        assert(names[3] == "--dry-run"@ && names[4] == "--cached"@ && names[5] == "--"@);
        single_contains("rm"@, flags[k]);
        single_contains("--"@, flags[k]);
        flag_contains(o.recursive, "-r"@, flags[k]);
        flag_contains(o.force, "--force"@, flags[k]);
        flag_contains(o.dry_run, "--dry-run"@, flags[k]);
        flag_contains(o.cached, "--cached"@, flags[k]);
    }
    assert(flags[0] == "-r"@ && flags[1] == "--force"@ && flags[2] == "--dry-run"@ && flags[3] == "--cached"@);
}

/// The arguments of the removal in one repository.
pub fn rm_invocation(options: &RmOptions, paths: &Vec<String>) -> (r: Vec<String>)
    ensures
        views(r@) == rm_query(*options, views(paths@)),
{
    let mut a = args_of(&vec!["rm"]);
    assert(views(a@) =~= seq!["rm"@]);
    push_if(&mut a, options.recursive, "-r");
    push_if(&mut a, options.force, "--force");
    push_if(&mut a, options.dry_run, "--dry-run");
    push_if(&mut a, options.cached, "--cached");
    push_if(&mut a, true, "--");
    let r = appended(a, paths);
    assert(views(r@) =~= rm_query(*options, views(paths@)));
    r
}

/// The success report of a removal: a dry run reports git's first stdout
/// line, a removal is quiet.
pub open spec fn rm_success(dry_run: bool) -> SuccessModel {
    if dry_run {
        SuccessModel::Line(Streams::StdoutOnly, None)
    } else {
        SuccessModel::Quiet
    }
}

/// The removal in each child repository that owns some of the paths
/// (`outputs[i]` from `repos[i]`), failures detailed, aggregated over
/// those repositories.
pub fn run(options: &RmOptions, repos: &Vec<Repo>, outputs: &Vec<GitOutput>) -> (r: Result<
    Rendered,
    Failed,
>)
    requires
        repos@.len() == outputs@.len(),
    ensures
        aggregated(
            policy_outcomes(rm_success(options.dry_run), FailureModel::Detailed("rm"@), repos@, outputs@),
            repos@.len(),
            r,
        ),
{
    let success = if options.dry_run {
        SuccessReport::line(Streams::StdoutOnly, OnEmpty::Quiet)
    } else {
        SuccessReport::quiet()
    };
    run_reported(repos, outputs, &success, &FailureReport::detailed("rm"))
}

} // verus!
