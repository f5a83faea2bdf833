use git_vmr::commands::status::{
    detached_head, known_head, parse_file_records, read_status, records_of, render,
    status_readable, FileChange, FileEntry, HeaderHead, RepoStatus,
};
use git_vmr::git::{GitOutput, Head, Repo};

const DISPLAY_NAME: &str = "git vmr";
const ROOT: &str = "/tmp/vmr";

fn repo(root: &str, name: &str) -> Repo {
    Repo { name: name.to_owned(), path: format!("{root}/{name}") }
}

fn repo_status(branch: &str) -> RepoStatus {
    RepoStatus {
        head: Head::Branch(branch.to_owned()),
        staged_changes: Vec::new(),
        unstaged_changes: Vec::new(),
        untracked_files: Vec::new(),
    }
}

fn file_entry(path: &str, change: FileChange) -> FileEntry {
    FileEntry { path: path.to_owned(), change }
}

fn entry_is(e: &FileEntry, path: &str, change: FileChange) -> bool {
    e.path == path && std::mem::discriminant(&e.change) == std::mem::discriminant(&change)
}

#[test]
fn status_renders_single_branch_without_repo_list() {
    let statuses = vec![(repo(ROOT, "backend"), repo_status("main")), (repo(ROOT, "frontend"), repo_status("main"))];
    let output = render(&statuses, DISPLAY_NAME, ROOT);
    assert!(output.contains("On branch "));
    assert!(output.contains("main"));
    assert!(!output.contains("(backend"));
    assert!(!output.contains("\u{1b}[32m"));
}

#[test]
fn status_renders_clean_summary_for_clean_branch_group() {
    let statuses = vec![(repo(ROOT, "backend"), repo_status("main"))];
    let output = render(&statuses, DISPLAY_NAME, ROOT);
    assert!(output.contains("On branch main"));
    assert!(output.contains("On branch main\n\nnothing to commit, working tree clean\n"));
}

#[test]
fn status_renders_diverged_branches_with_repo_names() {
    let statuses = vec![
        (repo(ROOT, "backend"), repo_status("main")),
        (repo(ROOT, "frontend"), repo_status("feature/auth")),
    ];
    let output = render(&statuses, DISPLAY_NAME, ROOT);
    assert!(output.contains("main"));
    assert!(output.contains("\u{1b}[90m(backend)\u{1b}[0m"));
    assert!(output.contains("feature/auth"));
    assert!(output.contains("\u{1b}[90m(frontend)\u{1b}[0m"));
}

#[test]
fn renders_every_partial_branch_group_with_repo_names() {
    let statuses = vec![
        (repo(ROOT, "backend"), repo_status("develop")),
        (repo(ROOT, "common"), repo_status("new-feature")),
        (repo(ROOT, "docs"), repo_status("develop")),
        (repo(ROOT, "frontend"), repo_status("develop")),
        (repo(ROOT, "shared"), repo_status("new-feature")),
        (repo(ROOT, "tools"), repo_status("bug-fix")),
    ];
    let output = render(&statuses, DISPLAY_NAME, ROOT);
    assert!(output.contains("On branch develop \u{1b}[90m(backend, docs, frontend)\u{1b}[0m"));
    assert!(output.contains("On branch new-feature \u{1b}[90m(common, shared)\u{1b}[0m"));
    assert!(output.contains("On branch bug-fix \u{1b}[90m(tools)\u{1b}[0m"));
}

#[test]
fn truncates_long_branch_group_repo_names() {
    let statuses = vec![
        (repo(ROOT, "a"), repo_status("develop")),
        (repo(ROOT, "b"), repo_status("develop")),
        (repo(ROOT, "c"), repo_status("develop")),
        (repo(ROOT, "d"), repo_status("develop")),
        (repo(ROOT, "e"), repo_status("develop")),
        (repo(ROOT, "f"), repo_status("bug-fix")),
    ];
    let output = render(&statuses, DISPLAY_NAME, ROOT);
    assert!(output.contains("On branch develop \u{1b}[90m(a, b, c, +2)\u{1b}[0m"));
}

#[test]
fn status_renders_detached_head() {
    let mut st = repo_status("main");
    st.head = Head::Detached("a1b2c3d".to_owned());
    let statuses = vec![(repo(ROOT, "tools"), st)];
    let output = render(&statuses, DISPLAY_NAME, ROOT);
    assert!(output.contains("HEAD detached at a1b2c3d\n"));
    assert!(!output.contains("(tools)"));
    assert!(!output.contains("\u{1b}[33m"));
}

#[test]
fn renders_detached_head_with_repo_names_when_not_all_repos_detached() {
    let mut detached = repo_status("main");
    detached.head = Head::Detached("a1b2c3d".to_owned());
    let statuses = vec![(repo(ROOT, "backend"), repo_status("main")), (repo(ROOT, "tools"), detached)];
    let output = render(&statuses, DISPLAY_NAME, ROOT);
    assert!(output.contains("HEAD detached at a1b2c3d \u{1b}[90m(tools)\u{1b}[0m\n"));
}

#[test]
fn status_renders_no_commits() {
    let mut st = repo_status("master");
    st.head = Head::Unborn("master".to_owned());
    let statuses = vec![(repo(ROOT, "new-repo"), st)];
    let output = render(&statuses, DISPLAY_NAME, ROOT);
    assert!(output.contains("On branch master\n"));
    assert!(!output.contains("(new-repo)"));
    assert!(output.contains("\nNo commits yet\n"));
}

#[test]
fn renders_unborn_repos_separately_from_committed_repos_on_same_branch() {
    let mut unborn = repo_status("master");
    unborn.head = Head::Unborn("master".to_owned());
    let statuses = vec![(repo(ROOT, "committed"), repo_status("master")), (repo(ROOT, "new-repo"), unborn)];
    let output = render(&statuses, DISPLAY_NAME, ROOT);
    assert!(output.contains(
        "On branch master \u{1b}[90m(committed)\u{1b}[0m\n\n\
         nothing to commit, working tree clean\n\n"
    ));
    assert!(output.contains("On branch master \u{1b}[90m(new-repo)\u{1b}[0m\n\nNo commits yet\n"));
    assert!(!output.contains("On branch master (committed, new-repo)"));
}

#[test]
fn renders_blank_lines_between_clean_branch_groups() {
    let statuses = vec![
        (repo(ROOT, "backend"), repo_status("create-project-structure")),
        (repo(ROOT, "frontend"), repo_status("develop")),
    ];
    let output = render(&statuses, DISPLAY_NAME, ROOT);
    assert!(output.contains(
        "On branch create-project-structure \u{1b}[90m(backend)\u{1b}[0m\n\n\
         nothing to commit, working tree clean\n\n\
         On branch develop \u{1b}[90m(frontend)\u{1b}[0m\n\n\
         nothing to commit, working tree clean\n"
    ));
}

#[test]
fn status_renders_paths_relative_to_working_dir() {
    let working_dir = format!("{ROOT}/frontend");
    let mut st = repo_status("main");
    st.unstaged_changes.push(file_entry("src/main.rs", FileChange::Modified));
    let statuses = vec![(repo(ROOT, "backend"), st)];
    let output = render(&statuses, DISPLAY_NAME, &working_dir);
    assert!(output.contains("../backend/src/main.rs"));
    assert!(output.contains("\u{1b}[31m"));
}

#[test]
fn renders_hints_with_invoked_command_name() {
    let mut st = repo_status("main");
    st.staged_changes.push(file_entry("staged.rs", FileChange::Modified));
    st.unstaged_changes.push(file_entry("unstaged.rs", FileChange::Modified));
    st.untracked_files.push(file_entry("untracked.rs", FileChange::NewFile));
    let statuses = vec![(repo(ROOT, "backend"), st)];
    let output = render(&statuses, "vv", ROOT);
    assert!(output.contains(r#"(use "vv restore --staged <file>..."#));
    assert!(output.contains(r#"(use "vv add <file>..."#));
    assert!(output.contains(r#"(use "vv restore <file>..."#));
    assert!(!output.contains("git vmr"));
}

#[test]
fn renders_sections_with_padded_labels_in_path_order() {
    let mut st = repo_status("main");
    st.staged_changes.push(file_entry("zeta.rs", FileChange::Modified));
    st.staged_changes.push(file_entry("alpha.rs", FileChange::NewFile));
    let statuses = vec![(repo(ROOT, "backend"), st)];
    let output = render(&statuses, DISPLAY_NAME, ROOT);
    assert_eq!(
        output,
        "On branch main\n\
         \nChanges to be committed:\n  (use \"git vmr restore --staged <file>...\" to unstage)\n\
         \t\u{1b}[32mnew file:\u{1b}[0m   \u{1b}[32mbackend/alpha.rs\u{1b}[0m\n\
         \t\u{1b}[32mmodified:\u{1b}[0m   \u{1b}[32mbackend/zeta.rs\u{1b}[0m\n"
    );
}

fn status_output(stdout: &str) -> GitOutput {
    GitOutput { code: Some(0), stdout: stdout.to_owned(), stderr: String::new() }
}

#[test]
fn status_parses_staged_unstaged_untracked_and_rename_records() {
    let out = status_output("## main...origin/main\0M  staged.rs\0 D removed.rs\0?? new.rs\0R  renamed.rs\0old.rs\0");
    assert!(status_readable(&out));
    let Ok(records) = read_status(&repo("/vmr", "backend"), &out) else {
        panic!("expected a status");
    };
    assert!(matches!(&records.head, HeaderHead::Branch(name) if name == "main"));
    assert_eq!(records.staged_changes.len(), 2);
    assert!(entry_is(&records.staged_changes[0], "staged.rs", FileChange::Modified));
    assert!(entry_is(&records.staged_changes[1], "renamed.rs", FileChange::Renamed));
    assert_eq!(records.unstaged_changes.len(), 1);
    assert!(entry_is(&records.unstaged_changes[0], "removed.rs", FileChange::Deleted));
    assert_eq!(records.untracked_files.len(), 1);
    assert!(entry_is(&records.untracked_files[0], "new.rs", FileChange::NewFile));
}

#[test]
fn status_resolves_detached_head_with_a_second_invocation() {
    let out = status_output("## HEAD (no branch)\0");
    let Ok(records) = read_status(&repo("/vmr", "backend"), &out) else {
        panic!("expected a status");
    };
    assert!(known_head(&records.head).is_none());
    let head = detached_head(&repo("/vmr", "backend"), &status_output("abc12345\n")).unwrap();
    assert!(matches!(&head, Head::Detached(hash) if hash == "abc12345"));
}

#[test]
fn status_reports_unborn_branch_before_first_commit() {
    let out = status_output("## No commits yet on main\0");
    let Ok(records) = read_status(&repo("/vmr", "backend"), &out) else {
        panic!("expected a status");
    };
    let head = known_head(&records.head).unwrap();
    assert!(matches!(&head, Head::Unborn(name) if name == "main"));
}

#[test]
fn parse_file_records_treats_index_space_worktree_a_as_staged() {
    let (staged, unstaged, untracked) = parse_file_records(&vec![" A intent.rs".chars().collect()]);
    assert_eq!(staged.len(), 1);
    assert!(entry_is(&staged[0], "intent.rs", FileChange::NewFile));
    assert!(unstaged.is_empty());
    assert!(untracked.is_empty());
}

#[test]
fn short_records_are_skipped_and_empty_records_dropped() {
    let records = records_of("## main\0\0ab\0M  x.rs\0");
    assert_eq!(records.len(), 3);
    let (staged, _, _) = parse_file_records(&records[1..].to_vec());
    assert_eq!(staged.len(), 1);
    assert!(entry_is(&staged[0], "x.rs", FileChange::Modified));
}

#[test]
fn missing_branch_header_and_failed_query_are_errors() {
    let Err(e) = read_status(&repo("/vmr", "backend"), &status_output("")) else {
        panic!("expected an error");
    };
    assert_eq!(e, "fatal: git status did not return a branch header");
    let failed = GitOutput { code: Some(128), stdout: String::new(), stderr: "fatal: not a repo\n".to_owned() };
    let Err(e) = read_status(&repo("/vmr", "backend"), &failed) else {
        panic!("expected an error");
    };
    assert_eq!(
        e,
        "fatal: failed to read git status for '/vmr/backend': git status --porcelain=v1 -z --branch --no-ahead-behind failed for '/vmr/backend': fatal: not a repo"
    );
    let Err(e) = read_status(&repo("/vmr", "backend"), &status_output("main\0")) else {
        panic!("expected an error");
    };
    assert_eq!(e, "fatal: git status branch header had unexpected format");
}
