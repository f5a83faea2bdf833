//! `restore`: restore paths in the child repositories that own them.

use crate::git::{args_of, views, GitOutput, Repo};
use crate::render::{Failed, Rendered};
use crate::report::{FailureModel, FailureReport, SuccessModel, SuccessReport};
use crate::workspace::{aggregated, appended, flag, flag_contains, policy_outcomes, push_if, run_reported, single_contains};
use vstd::prelude::*;

verus! {

/// Restore working tree files.
pub struct RestoreArgs {
    pub options: RestoreOptions,
    /// Files to restore
    pub paths: Vec<String>,
}

/// Where to restore.
pub struct RestoreOptions {
    /// Restore the working tree
    pub worktree: bool,
    /// Restore the index
    pub staged: bool,
}

/// The arguments of the restore in one repository: `--staged` and
/// `--worktree` as asked, then the repository's paths after `--`.
pub open spec fn restore_query(staged: bool, worktree: bool, paths: Seq<Seq<char>>) -> Seq<Seq<char>> {
    seq!["restore"@] + flag(staged, "--staged"@) + flag(worktree, "--worktree"@) + seq!["--"@] + paths
}

/// A restore passes `--staged` exactly when the index is to be restored
/// and `--worktree` exactly when the working tree is (paths aside), and
/// ends with `--` and the paths.
pub proof fn restore_flags_follow_options(staged: bool, worktree: bool, paths: Seq<Seq<char>>)
    requires
        !paths.contains("--staged"@),
        !paths.contains("--worktree"@),
    ensures
        restore_query(staged, worktree, paths).contains("--staged"@) == staged,
        restore_query(staged, worktree, paths).contains("--worktree"@) == worktree,
        restore_query(staged, worktree, paths)[0] == "restore"@,
        restore_query(staged, worktree, paths).skip(
            restore_query(staged, worktree, paths).len() - paths.len() - 1,
        ) == seq!["--"@] + paths,
{
    broadcast use vstd::seq_lib::lemma_seq_concat_contains_all_elements;

    reveal_strlit("restore");
    reveal_strlit("--staged");
    reveal_strlit("--worktree");
    reveal_strlit("--");
    let x = "--staged"@;
    let y = "--worktree"@;
    assert(x != y) by {
        assert(x.len() != y.len());
    }
    assert(x != "restore"@ && y != "restore"@ && x != "--"@ && y != "--"@) by {
        assert(x.len() != "restore"@.len() || x[0] != "restore"@[0]);
        assert(y.len() != "restore"@.len() || y[0] != "restore"@[0]);
        assert(x.len() != "--"@.len());
        assert(y.len() != "--"@.len());
    }
    single_contains("restore"@, x);
    single_contains("restore"@, y);
    single_contains("--"@, x);
    single_contains("--"@, y);
    flag_contains(staged, x, x);
    flag_contains(staged, x, y);
    flag_contains(worktree, y, x);
    flag_contains(worktree, y, y);
    let q = restore_query(staged, worktree, paths);
    let head = seq!["restore"@] + flag(staged, x) + flag(worktree, y);
    assert(q == head + (seq!["--"@] + paths));
    assert(q.skip(q.len() - paths.len() - 1) =~= seq!["--"@] + paths);
}

/// The arguments of the restore in one repository.
pub fn restore_invocation(options: &RestoreOptions, paths: &Vec<String>) -> (r: Vec<String>)
    ensures
        views(r@) == restore_query(options.staged, options.worktree, views(paths@)),
{
    let mut a = args_of(&vec!["restore"]);
    assert(views(a@) =~= seq!["restore"@]);
    push_if(&mut a, options.staged, "--staged");
    push_if(&mut a, options.worktree, "--worktree");
    push_if(&mut a, true, "--");
    let r = appended(a, paths);
    assert(views(r@) =~= restore_query(options.staged, options.worktree, views(paths@)));
    r
}

/// The restore in each child repository that owns some of the paths
/// (`outputs[i]` from `repos[i]`): quiet, failures detailed, aggregated
/// over those repositories.
pub fn run(repos: &Vec<Repo>, outputs: &Vec<GitOutput>) -> (r: Result<Rendered, Failed>)
    requires
        repos@.len() == outputs@.len(),
    ensures
        aggregated(
            policy_outcomes(SuccessModel::Quiet, FailureModel::Detailed("restore"@), repos@, outputs@),
            repos@.len(),
            r,
        ),
{
    run_reported(repos, outputs, &SuccessReport::quiet(), &FailureReport::detailed("restore"))
}

} // verus!
