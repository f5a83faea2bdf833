use git_vmr::cli::status::{
    detached_head, header_status, read_repo_status, render_status, repo_status, sort_statuses,
    Head, RepoStatus,
};
use git_vmr::commands::status::{status_readable, FileChange, FileEntry, HeaderHead};
use git_vmr::cli::merge::{aggregate_failures, merge_report, repo_name};
use git_vmr::git::GitOutput;

const ROOT: &str = "/tmp/vmr";

fn status(branch: &str) -> RepoStatus {
    RepoStatus {
        head: Head::Branch(branch.to_owned()),
        initial: false,
        staged_changes: Vec::new(),
        unstaged_changes: Vec::new(),
        untracked_files: Vec::new(),
    }
}

fn file_entry(path: &str, change: FileChange) -> FileEntry {
    FileEntry { path: path.to_owned(), change }
}

fn output(code: i32, stdout: &str, stderr: &str) -> GitOutput {
    GitOutput { code: Some(code), stdout: stdout.to_owned(), stderr: stderr.to_owned() }
}

#[test]
fn report_renders_single_branch_without_repo_list() {
    let statuses = vec![("backend".to_owned(), status("main")), ("frontend".to_owned(), status("main"))];
    let output = render_status(&statuses, ROOT, ROOT);
    assert!(output.contains("On branch "));
    assert!(output.contains("main"));
    assert!(!output.contains("(backend"));
    assert!(!output.contains("\u{1b}[32m"));
}

#[test]
fn report_renders_clean_summary_for_clean_branch_group() {
    let statuses = vec![("backend".to_owned(), status("main"))];
    let output = render_status(&statuses, ROOT, ROOT);
    assert!(output.contains("On branch main"));
    assert!(output.contains("nothing to commit, working tree clean"));
}

#[test]
fn report_renders_diverged_branches_with_repo_names() {
    let statuses =
        vec![("backend".to_owned(), status("main")), ("frontend".to_owned(), status("feature/auth"))];
    let output = render_status(&statuses, ROOT, ROOT);
    assert!(output.contains("main"));
    assert!(output.contains("(backend)"));
    assert!(output.contains("feature/auth"));
    assert!(output.contains("(frontend)"));
}

#[test]
fn report_renders_detached_head() {
    let mut s = status("main");
    s.head = Head::Detached("a1b2c3d".to_owned());
    let statuses = vec![("tools".to_owned(), s)];
    let output = render_status(&statuses, ROOT, ROOT);
    assert!(output.contains("HEAD detached at "));
    assert!(output.contains("a1b2c3d"));
    assert!(output.contains("(tools)"));
    assert!(!output.contains("\u{1b}[33m"));
}

#[test]
fn report_renders_no_commits() {
    let mut s = status("master");
    s.initial = true;
    let statuses = vec![("new-repo".to_owned(), s)];
    let output = render_status(&statuses, ROOT, ROOT);
    assert!(output.contains("master"));
    assert!(output.contains("(new-repo)"));
    assert!(output.contains("No commits yet."));
}

#[test]
fn renders_initial_repos_separately_from_committed_repos_on_same_branch() {
    let mut initial = status("master");
    initial.initial = true;
    let statuses = vec![("committed".to_owned(), status("master")), ("new-repo".to_owned(), initial)];
    let output = render_status(&statuses, ROOT, ROOT);
    assert!(output.contains("On branch master\nnothing to commit, working tree clean"));
    assert!(output.contains("On branch master (new-repo)\nNo commits yet."));
    assert!(!output.contains("On branch master (committed, new-repo)"));
}

#[test]
fn report_renders_paths_relative_to_working_dir() {
    let working_dir = format!("{ROOT}/frontend");
    let mut s = status("main");
    s.unstaged_changes.push(file_entry("src/main.rs", FileChange::Modified));
    let statuses = vec![("backend".to_owned(), s)];
    let output = render_status(&statuses, &working_dir, ROOT);
    assert!(output.contains("../backend/src/main.rs"));
    assert!(output.contains("\u{1b}[31m"));
}

#[test]
fn report_renders_sections_in_full() {
    let mut backend = status("main");
    backend.staged_changes.push(file_entry("b.rs", FileChange::NewFile));
    backend.untracked_files.push(file_entry("new.txt", FileChange::NewFile));
    let mut frontend = status("main");
    frontend.staged_changes.push(file_entry("a.rs", FileChange::Deleted));
    let statuses = vec![("backend".to_owned(), backend), ("frontend".to_owned(), frontend)];
    let output = render_status(&statuses, ROOT, ROOT);
    let expected = [
        "On branch main\n",
        "\n",
        "Changes to be committed:\n",
        "  (use \"git vmr restore --staged <file>...\" to unstage)\n",
        "\t\u{1b}[32mnew file:\u{1b}[0m   \u{1b}[32mbackend/b.rs\u{1b}[0m\n",
        "\t\u{1b}[32mdeleted:\u{1b}[0m    \u{1b}[32mfrontend/a.rs\u{1b}[0m\n",
        "\n",
        "Untracked files:\n",
        "  (use \"git vmr add <file>...\" to include in what will be committed)\n",
        "\t\u{1b}[31mnew file:\u{1b}[0m   \u{1b}[31mbackend/new.txt\u{1b}[0m\n",
        "\n",
    ]
    .concat();
    assert_eq!(output, expected);
}

#[test]
fn report_names_every_repository_when_a_head_is_detached() {
    let mut tools = status("main");
    tools.head = Head::Detached("abc1234".to_owned());
    let statuses = vec![("backend".to_owned(), status("main")), ("tools".to_owned(), tools)];
    let output = render_status(&statuses, ROOT, ROOT);
    assert_eq!(
        output,
        "On branch main (backend)\nnothing to commit, working tree clean\nHEAD detached at abc1234 (tools)\nnothing to commit, working tree clean\n"
    );
}

#[test]
fn report_of_no_repositories_is_empty() {
    assert_eq!(render_status(&Vec::new(), ROOT, ROOT), "");
}

#[test]
fn reads_child_status_records() {
    let out = output(0, "## main...origin/main\0M  staged.rs\0?? new.rs\0", "");
    assert!(status_readable(&out));
    let records = read_repo_status("/tmp/vmr/backend", &out).unwrap();
    assert!(matches!(&records.head, HeaderHead::Branch(b) if b == "main"));
    let (head, initial) = header_status(&records.head).unwrap();
    let s = repo_status(records, head, initial);
    assert!(matches!(&s.head, Head::Branch(b) if b == "main"));
    assert!(!s.initial);
    assert_eq!(s.staged_changes.len(), 1);
    assert_eq!(s.staged_changes[0].path, "staged.rs");
    assert_eq!(s.untracked_files[0].path, "new.rs");
}

#[test]
fn reads_unborn_child_as_initial() {
    let out = output(0, "## No commits yet on master\0", "");
    let records = read_repo_status("/tmp/vmr/new", &out).unwrap();
    let (head, initial) = header_status(&records.head).unwrap();
    assert!(matches!(head, Head::Branch(b) if b == "master"));
    assert!(initial);
}

#[test]
fn child_status_errors() {
    let failed = read_repo_status("/tmp/vmr/backend", &output(128, "", "fatal: broken\n"));
    assert_eq!(
        failed.err().unwrap(),
        "failed to read git status for '/tmp/vmr/backend': git status --porcelain=v1 -z --branch --no-ahead-behind failed for '/tmp/vmr/backend': fatal: broken"
    );
    let empty = read_repo_status("/tmp/vmr/backend", &output(0, "", ""));
    assert_eq!(empty.err().unwrap(), "git status did not return a branch header");
    let bad = read_repo_status("/tmp/vmr/backend", &output(0, "main\0", ""));
    assert_eq!(bad.err().unwrap(), "git status branch header had unexpected format");
}

#[test]
fn detached_child_head_takes_the_short_query() {
    let out = output(0, "## HEAD (no branch)\0", "");
    let records = read_repo_status("/tmp/vmr/tools", &out).unwrap();
    assert!(header_status(&records.head).is_none());
    let head = detached_head("/tmp/vmr/tools", &output(0, "a1b2c3d\n", "")).unwrap();
    assert!(matches!(head, Head::Detached(h) if h == "a1b2c3d"));
    let err = detached_head("/tmp/vmr/tools", &output(128, "", " bad HEAD \n")).err().unwrap();
    assert_eq!(err, "git rev-parse --short HEAD failed for '/tmp/vmr/tools': bad HEAD");
}

#[test]
fn statuses_are_sorted_by_name() {
    let statuses = vec![
        ("frontend".to_owned(), status("main")),
        ("backend".to_owned(), status("main")),
        ("docs".to_owned(), status("main")),
    ];
    let sorted = sort_statuses(statuses);
    let names: Vec<&str> = sorted.iter().map(|(n, _)| n.as_str()).collect();
    assert_eq!(names, vec!["backend", "docs", "frontend"]);
}

#[test]
fn merge_report_lists_successes_and_failures_by_repository_name() {
    let report = merge_report(vec![
        ("frontend".to_owned(), Ok("Already up to date.".to_owned())),
        ("tools".to_owned(), Err("merge: topic - not something we can merge".to_owned())),
        ("backend".to_owned(), Ok("Fast-forward".to_owned())),
        ("docs".to_owned(), Err("Automatic merge failed".to_owned())),
    ]);
    assert_eq!(report.stdout, "Fast-forward (backend)\nAlready up to date. (frontend)\n");
    assert_eq!(
        report.errors,
        vec![
            "Automatic merge failed (docs)".to_owned(),
            "merge: topic - not something we can merge (tools)".to_owned(),
        ]
    );
}

#[test]
fn merge_report_of_successes_has_no_errors() {
    let report = merge_report(vec![("backend".to_owned(), Ok("done".to_owned()))]);
    assert_eq!(report.stdout, "done (backend)\n");
    assert!(report.errors.is_empty());
}

#[test]
fn failures_are_attributed_in_repository_name_order() {
    let errors = aggregate_failures(vec![
        ("tools".to_owned(), "error: pathspec 'x' did not match".to_owned()),
        ("backend".to_owned(), "fatal: locked".to_owned()),
    ]);
    assert_eq!(
        errors,
        vec!["fatal: locked (backend)".to_owned(), "error: pathspec 'x' did not match (tools)".to_owned()]
    );
    assert!(aggregate_failures(Vec::new()).is_empty());
}

#[test]
fn repository_name_is_the_last_path_component() {
    assert_eq!(repo_name("/tmp/vmr/backend").unwrap(), "backend");
    assert_eq!(repo_name("/").err().unwrap(), "repository path has no valid UTF-8 file name");
}
