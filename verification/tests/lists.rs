use git_vmr::commands::branch::{
    invocation as branch_invocation, list_branches, render_branches, repo_branch_names, BranchAction,
    BranchArgs, RepoBranches,
};
use git_vmr::commands::tag::{invocation as tag_invocation, render, run as tag_run, tag_outcome, TagAction, TagArgs};
use git_vmr::commands::worktree::{render as render_worktrees, render_head, WorktreeRootEntry};
use git_vmr::git::{head_step, GitOutput, Head, HeadStep, Repo, RepoOutcome};
use git_vmr::render::RunError;

#[test]
fn tag_renders_shared_tag_without_repo_list() {
    let repos = vec![
        ("backend".to_owned(), vec!["v1.0.0".to_owned()]),
        ("frontend".to_owned(), vec!["v1.0.0".to_owned()]),
    ];
    assert_eq!(render(&repos), "v1.0.0\n");
}

#[test]
fn tag_renders_partial_tag_with_repo_list() {
    let repos = vec![
        ("backend".to_owned(), vec!["v1.0.0".to_owned()]),
        ("frontend".to_owned(), vec!["v1.0.0".to_owned(), "v1.1.0".to_owned()]),
    ];
    let output = render(&repos);
    assert!(output.contains("v1.0.0\n"));
    assert!(output.contains("v1.1.0 \x1b[90m(frontend)\x1b[0m\n"));
}

#[test]
fn tag_renders_partial_tag_with_sorted_repo_list() {
    let repos = vec![
        ("backend".to_owned(), vec!["v1.2.0".to_owned()]),
        ("frontend".to_owned(), vec!["v1.2.0".to_owned()]),
        ("tools".to_owned(), vec![]),
    ];
    assert_eq!(render(&repos), "v1.2.0 \x1b[90m(backend, frontend)\x1b[0m\n");
}

#[test]
fn tag_renders_tags_in_name_order() {
    let repos = vec![
        ("backend".to_owned(), vec!["v2.0.0".to_owned(), "v1.0.0".to_owned()]),
        ("frontend".to_owned(), vec!["v1.1.0".to_owned()]),
    ];
    assert_eq!(
        render(&repos),
        [
            "v1.0.0 \x1b[90m(backend)\x1b[0m\n",
            "v1.1.0 \x1b[90m(frontend)\x1b[0m\n",
            "v2.0.0 \x1b[90m(backend)\x1b[0m\n",
    ].concat()
    );
}

#[test]
fn tag_renders_empty_output_for_no_repos_or_tag_refs() {
    assert_eq!(render(&vec![]), "");
    let repos = vec![("backend".to_owned(), vec![])];
    assert_eq!(render(&repos), "");
}

fn repo(name: &str) -> Repo {
    Repo { name: name.to_owned(), path: format!("/vmr/{name}") }
}

fn output(code: i32, stdout: &str, stderr: &str) -> GitOutput {
    GitOutput { code: Some(code), stdout: stdout.to_owned(), stderr: stderr.to_owned() }
}

#[test]
fn delete_tag_with_no_output_reports_the_deleted_fallback() {
    let RepoOutcome::Success(Some(message)) = tag_outcome(&repo("backend"), &output(0, "", ""), true) else {
        panic!("expected success with message");
    };
    assert_eq!(message.message, "git tag deleted");
}

#[test]
fn tag_actions_and_invocations() {
    let list = TagArgs { delete: false, tag_name: None };
    assert!(matches!(list.action(), TagAction::List));
    assert_eq!(tag_invocation(&list.action()), vec!["for-each-ref", "--format=%(refname:short)", "refs/tags"]);
    let delete = TagArgs { delete: true, tag_name: Some("v1".to_owned()) };
    assert_eq!(tag_invocation(&delete.action()), vec!["tag", "-d", "v1"]);
    let create = TagArgs { delete: false, tag_name: Some("v1".to_owned()) };
    assert_eq!(tag_invocation(&create.action()), vec!["tag", "v1"]);
}

#[test]
fn tag_listing_reads_one_tag_per_line_and_failures_stop_it() {
    let args = TagArgs { delete: false, tag_name: None };
    let repos = vec![repo("backend"), repo("frontend")];
    let outputs = vec![output(0, "v1.0.0\nv1.1.0\n", ""), output(0, "v1.0.0\n", "")];
    let Ok(rendered) = tag_run(&args, &repos, &outputs) else {
        panic!("expected a listing");
    };
    assert_eq!(rendered.stdout, "v1.0.0\nv1.1.0 \x1b[90m(backend)\x1b[0m\n");
    let failing = vec![output(0, "v1.0.0\n", ""), output(1, "", "boom\n")];
    let Err(RunError::Message(e)) = tag_run(&args, &repos, &failing) else {
        panic!("expected an error");
    };
    assert_eq!(
        e,
        "fatal: failed to read tag information for '/vmr/frontend': git for-each-ref --format=%(refname:short) refs/tags failed for '/vmr/frontend': boom"
    );
}

fn repo_branches(branches: &[&str], active: &str) -> RepoBranches {
    RepoBranches { branches: branches.iter().map(|b| (*b).to_owned()).collect(), head: Head::Branch(active.to_owned()) }
}

fn detached_repo(branches: &[&str], hash: &str) -> RepoBranches {
    RepoBranches { branches: branches.iter().map(|b| (*b).to_owned()).collect(), head: Head::Detached(hash.to_owned()) }
}

#[test]
fn renders_shared_branch_without_repo_list() {
    let repos = vec![
        ("backend".to_owned(), repo_branches(&["main"], "main")),
        ("frontend".to_owned(), repo_branches(&["main"], "main")),
    ];
    assert_eq!(render_branches(&repos), "* main\n");
}

#[test]
fn renders_partial_branch_with_sorted_repo_list() {
    let repos = vec![
        ("backend".to_owned(), repo_branches(&["main", "release/1.2"], "main")),
        ("frontend".to_owned(), repo_branches(&["feature/auth", "main", "release/1.2"], "feature/auth")),
        ("tools".to_owned(), repo_branches(&["main"], "main")),
    ];
    let output = render_branches(&repos);
    assert!(output.contains("* feature/auth (frontend)\n"));
    assert!(output.contains("* main\n"));
    assert!(output.contains("  release/1.2 (backend, frontend)\n"));
}

#[test]
fn renders_inactive_marker_for_branch_not_checked_out() {
    let repos = vec![("backend".to_owned(), repo_branches(&["main", "topic"], "main"))];
    let output = render_branches(&repos);
    assert!(output.contains("* main\n"));
    assert!(output.contains("  topic\n"));
}

#[test]
fn renders_detached_head_lines() {
    let repos = vec![
        ("backend".to_owned(), detached_repo(&["main"], "a1b2c3d")),
        ("frontend".to_owned(), detached_repo(&["main"], "d4e5f6a")),
    ];
    let output = render_branches(&repos);
    assert!(output.contains("  main\n"));
    assert!(output.contains("* (HEAD detached at a1b2c3d) (backend)\n"));
    assert!(output.contains("* (HEAD detached at d4e5f6a) (frontend)\n"));
}

#[test]
fn renders_empty_output_for_no_repos_or_branch_refs() {
    assert_eq!(render_branches(&vec![]), "");
    let repos = vec![("backend".to_owned(), repo_branches(&[], "main"))];
    assert_eq!(render_branches(&repos), "");
}

#[test]
fn branches_resolves_detached_head_through_rev_parse_fallback() {
    let names = repo_branch_names(&repo("backend"), &output(0, "develop\nmain\n", "")).unwrap();
    assert_eq!(names, vec!["develop", "main"]);
    let mut answers = Vec::new();
    let head = loop {
        match head_step("/vmr/backend", &answers) {
            HeadStep::Ask(args) => {
                let out = if args[0] == "symbolic-ref" {
                    output(1, "", "")
                } else {
                    assert_eq!(args, vec!["rev-parse", "--short=8", "HEAD"]);
                    output(0, "abc12345\n", "")
                };
                answers.push(out);
            }
            HeadStep::Found(h) => break h,
            HeadStep::Failed(e) => panic!("{e}"),
        }
    };
    assert!(matches!(&head, Head::Detached(hash) if hash == "abc12345"));
    let Ok(rendered) = list_branches(&vec![repo("backend")], &vec![output(0, "develop\nmain\n", "")], &vec![Ok(head)]) else {
        panic!("expected a listing");
    };
    assert_eq!(rendered.stdout, "  develop\n  main\n* (HEAD detached at abc12345) (backend)\n");
}

#[test]
fn branch_actions_and_invocations() {
    let delete = BranchArgs { delete: true, force_delete: false, force: true, branch_name: Some("topic".to_owned()) };
    assert!(matches!(delete.action(), BranchAction::Delete { force: true, .. }));
    assert_eq!(branch_invocation(&delete.action()), vec!["branch", "-D", "topic"]);
    let create = BranchArgs { delete: false, force_delete: false, force: false, branch_name: Some("topic".to_owned()) };
    assert_eq!(branch_invocation(&create.action()), vec!["branch", "topic"]);
}

fn branch_entry(repo: &str, branch: &str) -> WorktreeRootEntry {
    WorktreeRootEntry { repo: repo.to_owned(), head: Head::Branch(branch.to_owned()) }
}

fn detached_entry(repo: &str, hash: &str) -> WorktreeRootEntry {
    WorktreeRootEntry { repo: repo.to_owned(), head: Head::Detached(hash.to_owned()) }
}

#[test]
fn renders_empty_output_for_no_worktrees() {
    assert_eq!(render_worktrees(&vec![], 0), "");
}

#[test]
fn renders_shared_head_on_single_line_without_repo_list() {
    let groups = vec![("../release".to_owned(), vec![branch_entry("frontend", "release"), branch_entry("backend", "release")])];
    assert_eq!(render_worktrees(&groups, 2), "../release [release]\n");
}

#[test]
fn groups_and_sorts_heads_in_multi_line_block() {
    let groups = vec![(
        "../feature".to_owned(),
        vec![
            detached_entry("tools", "fedcba98"),
            branch_entry("frontend", "topic"),
            detached_entry("backend", "01234567"),
            branch_entry("backend", "topic"),
            branch_entry("zeta", "alpha"),
            branch_entry("charlie", "alpha"),
            branch_entry("alpha", "alpha"),
            branch_entry("bravo", "alpha"),
        ],
    )];
    assert_eq!(
        render_worktrees(&groups, 7),
        [
            "../feature\n",
            "  [alpha] \x1b[90m(alpha, bravo, charlie, +1)\x1b[0m\n",
            "  [topic] \x1b[90m(backend, frontend)\x1b[0m\n",
            "  01234567 (detached HEAD) \x1b[90m(backend)\x1b[0m\n",
            "  fedcba98 (detached HEAD) \x1b[90m(tools)\x1b[0m\n",
    ].concat()
    );
}

#[test]
fn lists_worktree_roots_in_path_order() {
    let groups = vec![
        ("../zeta".to_owned(), vec![branch_entry("app", "z")]),
        ("../a-b".to_owned(), vec![branch_entry("app", "dash")]),
        ("../a/b".to_owned(), vec![branch_entry("app", "nested")]),
    ];
    assert_eq!(render_worktrees(&groups, 1), "../a/b [nested]\n../a-b [dash]\n../zeta [z]\n");
}

#[test]
fn worktree_roots_follow_path_component_order() {
    let groups = vec![
        ("../x//c".to_owned(), vec![branch_entry("app", "c")]),
        ("../x/b".to_owned(), vec![branch_entry("app", "b")]),
    ];
    assert_eq!(render_worktrees(&groups, 1), "../x/b [b]\n../x//c [c]\n");
}

#[test]
fn heads_render_as_branches_or_detached_commits() {
    assert_eq!(render_head(&Head::Unborn("main".to_owned())).iter().collect::<String>(), "[main]");
    assert_eq!(render_head(&Head::Detached("abc".to_owned())).iter().collect::<String>(), "abc (detached HEAD)");
}
