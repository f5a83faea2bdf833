use git_vmr::cli::{display_name, event_meta, resolve_working_dir, ArgUse, Level, SilentError, WorkingDirArg};
use git_vmr::commands::add::{add_args, stages_everything, AddArgs, AddOptions, ChmodMode};
use git_vmr::commands::clone::{invocation as clone_invocation, run as clone_run, CloneArgs};
use git_vmr::commands::commit::{invocation as commit_invocation, is_dirty, run as commit_run, select_dirty, CommitArgs};
use git_vmr::commands::merge::{invocation as merge_invocation, run as merge_run};
use git_vmr::commands::pull::{remote_invocation, run as pull_run};
use git_vmr::commands::reset::{invocation as reset_invocation, run as reset_run, ResetArgs, ResetMode};
use git_vmr::commands::rm::{rm_invocation, root_removal_refusal, run as rm_run, RmOptions};
use git_vmr::commands::switch::{invocation as switch_invocation, normalize_success_message, run as switch_run, SwitchArgs};
use git_vmr::git::{git_style_path, windows_git_path, GitOutput, Git, Repo, RepoOutcome};
use git_vmr::report::{command_result, FailureReport, OnEmpty, Streams, SuccessReport};

fn repo(name: &str) -> Repo {
    Repo { name: name.to_owned(), path: format!("/vmr/{name}") }
}

fn output(code: i32, stdout: &str, stderr: &str) -> GitOutput {
    GitOutput { code: Some(code), stdout: stdout.to_owned(), stderr: stderr.to_owned() }
}

fn wide(s: &str) -> Vec<u16> {
    s.encode_utf16().collect()
}

#[test]
fn git_path_arg_removes_windows_verbatim_prefix() {
    let normalized = String::from_utf16(&windows_git_path(wide(r"\\?\C:\Projects\vmr"))).unwrap();
    assert_eq!(normalized, "C:/Projects/vmr");
}

#[test]
fn git_path_arg_preserves_windows_unc_root() {
    let normalized = String::from_utf16(&windows_git_path(wide(r"\\?\UNC\server\share\vmr"))).unwrap();
    assert_eq!(normalized, "//server/share/vmr");
}

#[test]
fn git_style_path_normalizes_windows_separators() {
    assert_eq!(git_style_path(r"C:\Projects\vmr"), "C:/Projects/vmr");
}

#[test]
fn git_style_path_removes_windows_verbatim_prefix() {
    assert_eq!(git_style_path(r"\\?\C:\Projects\vmr"), "C:/Projects/vmr");
}

#[test]
fn git_style_path_normalizes_mixed_separator_inputs() {
    assert_eq!(git_style_path(r"C:\Projects\vmr"), "C:/Projects/vmr");
    assert_eq!(git_style_path("C:/Worktrees/new-feature"), "C:/Worktrees/new-feature");
}

#[test]
fn subprocess_runs_git_with_no_optional_locks() {
    let git = Git::subprocess();
    assert_eq!(
        git.command_line("/vmr/backend", &vec!["status".to_owned()]),
        vec!["git", "--no-optional-locks", "-C", "/vmr/backend", "status"]
    );
}

#[test]
fn normalizes_behind_fast_forward_success_message() {
    assert_eq!(
        normalize_success_message(
            "Your branch is behind 'origin/develop' by 1 commit, and can be fast-forwarded.".to_owned()
        ),
        "Your branch is behind 'origin/develop', and can be fast-forwarded."
    );
    assert_eq!(
        normalize_success_message(
            "Your branch is behind 'origin/develop' by 20 commits, and can be fast-forwarded.".to_owned()
        ),
        "Your branch is behind 'origin/develop', and can be fast-forwarded."
    );
}

#[test]
fn leaves_other_success_messages_unchanged() {
    assert_eq!(
        normalize_success_message("Switched to branch 'feature/auth'".to_owned()),
        "Switched to branch 'feature/auth'"
    );
}

#[test]
fn switch_normalizes_behind_count_in_success_message() {
    let args = SwitchArgs { create: false, branch_name: "develop".to_owned() };
    assert_eq!(switch_invocation(&args), vec!["switch", "develop"]);
    let out = output(0, "Your branch is behind 'origin/develop' by 3 commits, and can be fast-forwarded.\n", "");
    let Ok(rendered) = switch_run(&vec![repo("backend")], &vec![out]) else {
        panic!("expected success");
    };
    assert_eq!(rendered.stdout, "Your branch is behind 'origin/develop', and can be fast-forwarded.\n");
}

#[test]
fn create_normalizes_behind_count_in_success_message() {
    let args = SwitchArgs { create: true, branch_name: "feature/auth".to_owned() };
    assert_eq!(switch_invocation(&args), vec!["switch", "--create", "feature/auth"]);
    let out = output(0, "Your branch is behind 'origin/develop' by 3 commits, and can be fast-forwarded.\n", "");
    let Ok(rendered) = switch_run(&vec![repo("backend")], &vec![out]) else {
        panic!("expected success");
    };
    assert_eq!(rendered.stdout, "Your branch is behind 'origin/develop', and can be fast-forwarded.\n");
}

#[test]
fn commit_reports_first_stdout_line_through_the_seam() {
    let args = CommitArgs { message: "message".to_owned() };
    assert_eq!(commit_invocation(&args), vec!["commit", "-m", "message"]);
    let Ok(rendered) = commit_run(&vec![repo("backend")], &vec![output(0, "[main abc1234] message\n 1 file changed\n", "")]) else {
        panic!("expected success");
    };
    assert_eq!(rendered.stdout, "[main abc1234] message\n");
}

#[test]
fn commit_reports_first_stderr_line_on_failure() {
    let Err(failed) = commit_run(&vec![repo("backend")], &vec![output(1, "", "error: nothing to commit\n")]) else {
        panic!("expected failure");
    };
    assert_eq!(failed.message, "error: nothing to commit");
}

#[test]
fn is_dirty_maps_diff_exit_codes() {
    for (code, expected) in [(0, false), (1, true)] {
        assert_eq!(is_dirty("/vmr/backend", &output(code, "", "")).unwrap(), expected);
    }
    let err = is_dirty("/vmr/backend", &output(128, "", "fatal: bad\n")).unwrap_err();
    assert_eq!(err, "fatal: git diff --cached --quiet failed for '/vmr/backend': fatal: bad");
}

#[test]
fn bails_when_no_child_repo_has_staged_changes() {
    let err = select_dirty(&vec![repo("backend"), repo("frontend")], &vec![output(0, "", ""), output(0, "", "")]).unwrap_err();
    assert_eq!(err, "error: nothing to commit, working tree clean");
}

#[test]
fn commits_in_dirty_child_repos() {
    let dirty = select_dirty(&vec![repo("backend"), repo("frontend")], &vec![output(1, "", ""), output(1, "", "")]).unwrap();
    let names = dirty.iter().map(|r| r.name.clone()).collect::<Vec<_>>();
    assert_eq!(names, vec!["backend", "frontend"]);
    let result = commit_run(&dirty, &vec![output(0, "committed", ""), output(0, "committed", "")]);
    assert!(result.is_ok());
}

#[test]
fn pull_success_reports_stdout_before_stderr() {
    let Ok(rendered) = pull_run(&vec![repo("backend")], &vec![output(0, "Already up to date.\n", "stderr chatter\n")]) else {
        panic!("expected success");
    };
    assert_eq!(rendered.stdout, "Already up to date.\n");
}

#[test]
fn passes_repository_and_refspecs_through_to_git() {
    assert_eq!(
        remote_invocation("fetch", &Some("origin".to_owned()), &vec!["main".to_owned()]),
        vec!["fetch", "origin", "main"]
    );
    assert_eq!(remote_invocation("pull", &None, &vec![]), vec!["pull"]);
}

#[test]
fn rm_reports_stdout_only_for_dry_runs() {
    let dry = RmOptions { recursive: false, force: false, dry_run: true, cached: false };
    assert_eq!(rm_invocation(&dry, &vec!["a.rs".to_owned()]), vec!["rm", "--dry-run", "--", "a.rs"]);
    let Ok(rendered) = rm_run(&dry, &vec![repo("backend")], &vec![output(0, "rm 'a.rs'\n", "")]) else {
        panic!("expected success");
    };
    assert_eq!(rendered.stdout, "rm 'a.rs'\n");
    let real = RmOptions { recursive: true, force: true, dry_run: false, cached: true };
    let Ok(rendered) = rm_run(&real, &vec![repo("backend")], &vec![output(0, "rm 'a.rs'\n", "")]) else {
        panic!("expected success");
    };
    assert_eq!(rendered.stdout, "");
    assert!(root_removal_refusal(&real).is_none());
    assert_eq!(root_removal_refusal(&dry).unwrap(), "error: cannot remove VMR root without -r");
}

#[test]
fn add_all_without_paths_stages_the_entire_vmr() {
    let args = AddArgs { options: AddOptions { all: true, force: false, chmod: None }, paths: vec![] };
    assert!(stages_everything(&args));
    assert_eq!(add_args(&args.options, &vec![".".to_owned()]), vec!["add", "--all", "--", "."]);
}

#[test]
fn explicit_paths_only_stage_in_the_owning_child_repo() {
    let options = AddOptions { all: false, force: true, chmod: Some(ChmodMode::Executable) };
    assert_eq!(
        add_args(&options, &vec!["src/main.rs".to_owned()]),
        vec!["add", "--force", "--chmod=+x", "--", "src/main.rs"]
    );
    assert!(matches!(ChmodMode::parse("-x"), Ok(ChmodMode::NotExecutable)));
    assert_eq!(ChmodMode::parse("bad").err().unwrap(), "expected +x or -x");
}

#[test]
fn clone_passes_repository_and_directory_to_git() {
    let args = CloneArgs { repository: "https://example.com/repo".to_owned(), directory: Some("dir".to_owned()) };
    assert_eq!(clone_invocation(&args), vec!["clone", "https://example.com/repo", "dir"]);
    assert!(clone_run(true).is_ok());
}

#[test]
fn clone_failure_is_silent_because_git_already_reported_it() {
    assert!(clone_run(false).is_err());
}

#[test]
fn silent_error_has_fallback_display_text() {
    assert_eq!(SilentError.message(), "command failed silently");
}

#[test]
fn maps_canonical_binary_name_to_git_subcommand() {
    assert_eq!(display_name("git-vmr"), "git vmr");
    assert_eq!(display_name("vv"), "vv");
}

#[test]
fn working_dir_argument_must_be_a_directory() {
    let arg = Some("file.txt".to_owned());
    let err = resolve_working_dir(&arg, Some(WorkingDirArg::Canonical { path: "/tmp/file.txt".to_owned(), is_dir: false }), Ok("/".to_owned())).unwrap_err();
    assert_eq!(err, "fatal: cannot change to 'file.txt': Not a directory");
    let ok = resolve_working_dir(&None, None, Ok("/home".to_owned())).unwrap();
    assert_eq!(ok, "/home");
}

#[test]
fn records_nested_subcommands_with_dotted_names() {
    let arg = |id: &str, positional: bool, given: bool| ArgUse { id: id.to_owned(), positional, given };
    let meta = event_meta(
        &vec![arg("working_dir", false, false)],
        &vec![
            Level { name: "worktree".to_owned(), args: vec![] },
            Level {
                name: "remove".to_owned(),
                args: vec![arg("force", false, true), arg("delete", false, true), arg("path", true, true)],
            },
        ],
    );
    assert_eq!(meta.name, "worktree.remove");
    assert_eq!(meta.flags, vec!["force", "delete"]);
    assert!(meta.global_flags.is_empty());
}

#[test]
fn reports_use_the_first_line_of_the_first_stream_that_speaks() {
    let r = command_result(
        &repo("backend"),
        &output(1, "   \n", "\n  first line  \nsecond\n"),
        SuccessReport::quiet(),
        FailureReport::line(Streams::StdoutThenStderr, "fallback"),
    );
    let RepoOutcome::Failure(m) = r else { panic!("expected failure") };
    assert_eq!(m.message, "first line");
    let r = command_result(
        &repo("backend"),
        &output(0, "", ""),
        SuccessReport::line(Streams::StdoutOnly, OnEmpty::Text("done".to_owned())),
        FailureReport::detailed("x"),
    );
    let RepoOutcome::Success(Some(m)) = r else { panic!("expected success") };
    assert_eq!(m.message, "done");
    let r = command_result(&repo("backend"), &output(2, "", "boom\n"), SuccessReport::quiet(), FailureReport::detailed("add"));
    let RepoOutcome::Failure(m) = r else { panic!("expected failure") };
    assert_eq!(m.message, "git add failed for '/vmr/backend': boom");
}

#[test]
fn merge_passes_the_commit_to_git() {
    assert_eq!(merge_invocation("origin/main"), vec!["merge", "origin/main"]);
}

#[test]
fn merge_reports_first_stdout_line_on_success() {
    let Ok(rendered) = merge_run(&vec![repo("backend")], &vec![output(0, "Updating 1a2b..3c4d\nFast-forward\n", "")]) else {
        panic!("expected success");
    };
    assert_eq!(rendered.stdout, "Updating 1a2b..3c4d\n");
}

#[test]
fn merge_reports_first_stderr_line_on_failure() {
    let Err(failed) = merge_run(&vec![repo("backend")], &vec![output(1, "Auto-merging a.txt\n", "CONFLICT (content): Merge conflict in a.txt\n")]) else {
        panic!("expected failure");
    };
    assert_eq!(failed.message, "CONFLICT (content): Merge conflict in a.txt");
}

#[test]
fn merge_failure_without_output_uses_fallback() {
    let Err(failed) = merge_run(&vec![repo("backend")], &vec![output(1, "", "")]) else {
        panic!("expected failure");
    };
    assert_eq!(failed.message, "git merge failed");
}

fn reset_args(soft: bool, hard: bool, commit: Option<&str>) -> ResetArgs {
    ResetArgs { soft, mixed: false, hard, merge: false, keep: false, commit: commit.map(str::to_owned) }
}

#[test]
fn reset_mode_follows_the_flag_given() {
    assert_eq!(reset_args(false, false, None).mode(), None);
    assert_eq!(reset_args(false, true, None).mode(), Some(ResetMode::Hard));
    assert_eq!(reset_args(true, false, None).mode(), Some(ResetMode::Soft));
    let keep = ResetArgs { keep: true, ..reset_args(false, false, None) };
    assert_eq!(keep.mode(), Some(ResetMode::Keep));
}

#[test]
fn reset_passes_mode_and_commit_to_git() {
    assert_eq!(reset_invocation(None, &None), vec!["reset"]);
    assert_eq!(reset_invocation(Some(ResetMode::Hard), &Some("HEAD~1".to_owned())), vec!["reset", "--hard", "HEAD~1"]);
    assert_eq!(reset_invocation(Some(ResetMode::Mixed), &None), vec!["reset", "--mixed"]);
    assert_eq!(reset_invocation(None, &Some("main".to_owned())), vec!["reset", "main"]);
    assert_eq!(reset_invocation(Some(ResetMode::Merge), &None), vec!["reset", "--merge"]);
    assert_eq!(reset_invocation(Some(ResetMode::Soft), &None), vec!["reset", "--soft"]);
    assert_eq!(reset_invocation(Some(ResetMode::Keep), &None), vec!["reset", "--keep"]);
}

#[test]
fn reset_reports_first_line_and_failure() {
    let Ok(rendered) = reset_run(&vec![repo("backend")], &vec![output(0, "HEAD is now at 1a2b3c4 message\n", "")]) else {
        panic!("expected success");
    };
    assert_eq!(rendered.stdout, "HEAD is now at 1a2b3c4 message\n");
    let Err(failed) = reset_run(&vec![repo("backend")], &vec![output(128, "", "fatal: ambiguous argument 'nope'\n")]) else {
        panic!("expected failure");
    };
    assert_eq!(failed.message, "fatal: ambiguous argument 'nope'");
}
