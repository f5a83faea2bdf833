use git_vmr::commands::diff::{
    diff_invocation, git_var, needs_shell, pager_command, paging_active, repo_diff,
    resolve_color, rewrite_rename_headers, run, ColorWhen, ResolvedColor,
};
use git_vmr::git::{GitOutput, Repo, RepoOutcome};

fn is_always(c: ResolvedColor) -> bool {
    matches!(c, ResolvedColor::Always)
}

#[test]
fn auto_resolves_to_always_on_a_vt_capable_tty() {
    assert!(is_always(resolve_color(ColorWhen::Auto, true, true)));
}

#[test]
fn auto_resolves_to_never_off_a_tty() {
    assert!(!is_always(resolve_color(ColorWhen::Auto, false, true)));
}

#[test]
fn auto_resolves_to_never_on_a_tty_without_vt_output() {
    assert!(!is_always(resolve_color(ColorWhen::Auto, true, false)));
}

#[test]
fn explicit_choices_pass_through_regardless_of_tty_and_vt() {
    assert!(is_always(resolve_color(ColorWhen::Always, false, false)));
    assert!(!is_always(resolve_color(ColorWhen::Never, true, true)));
}

#[test]
fn paging_is_active_only_on_a_tty_without_no_pager() {
    assert!(paging_active(false, true));
    assert!(!paging_active(true, true));
    assert!(!paging_active(false, false));
    assert!(!paging_active(true, false));
}

#[test]
fn rename_with_hunks_rewrites_headers_only() {
    let input = "diff --git a/backend/old.rs b/backend/new.rs\n\
                 similarity index 90%\n\
                 rename from old.rs\n\
                 rename to new.rs\n\
                 index 1111111..2222222 100644\n\
                 --- a/backend/old.rs\n\
                 +++ b/backend/new.rs\n\
                 @@ -1 +1 @@\n\
                 -old\n\
                 +new\n";
    let expected = "diff --git a/backend/old.rs b/backend/new.rs\n\
                    similarity index 90%\n\
                    rename from backend/old.rs\n\
                    rename to backend/new.rs\n\
                    index 1111111..2222222 100644\n\
                    --- a/backend/old.rs\n\
                    +++ b/backend/new.rs\n\
                    @@ -1 +1 @@\n\
                    -old\n\
                    +new\n";
    assert_eq!(rewrite_rename_headers(input, "backend"), expected);
}

#[test]
fn pure_rename_without_hunks_is_rewritten() {
    let input = "diff --git a/backend/old.rs b/backend/new.rs\n\
                 similarity index 100%\n\
                 rename from old.rs\n\
                 rename to new.rs\n";
    let expected = "diff --git a/backend/old.rs b/backend/new.rs\n\
                    similarity index 100%\n\
                    rename from backend/old.rs\n\
                    rename to backend/new.rs\n";
    assert_eq!(rewrite_rename_headers(input, "backend"), expected);
}

#[test]
fn copy_lines_are_rewritten() {
    let input = "diff --git a/backend/src.txt b/backend/dest.txt\n\
                 similarity index 100%\n\
                 copy from src.txt\n\
                 copy to dest.txt\n";
    let expected = "diff --git a/backend/src.txt b/backend/dest.txt\n\
                    similarity index 100%\n\
                    copy from backend/src.txt\n\
                    copy to backend/dest.txt\n";
    assert_eq!(rewrite_rename_headers(input, "backend"), expected);
}

#[test]
fn rename_from_inside_a_hunk_body_is_untouched() {
    let input = "diff --git a/backend/notes.txt b/backend/notes.txt\n\
                 index 1111111..2222222 100644\n\
                 --- a/backend/notes.txt\n\
                 +++ b/backend/notes.txt\n\
                 @@ -1 +1,2 @@\n\
                 rename from old.rs\n\
                 +rename to new.rs\n";
    assert_eq!(rewrite_rename_headers(input, "backend"), input);
}

#[test]
fn coloured_rename_lines_are_rewritten_inside_the_sgr_wrapping() {
    let input = "\x1b[1mdiff --git a/backend/old.rs \
                 b/backend/new.rs\x1b[m\n\
                 \x1b[1msimilarity index 100%\x1b[m\n\
                 \x1b[1mrename from old.rs\x1b[m\n\
                 \x1b[1mrename to new.rs\x1b[m\n";
    let expected = "\x1b[1mdiff --git a/backend/old.rs \
                    b/backend/new.rs\x1b[m\n\
                    \x1b[1msimilarity index 100%\x1b[m\n\
                    \x1b[1mrename from backend/old.rs\x1b[m\n\
                    \x1b[1mrename to backend/new.rs\x1b[m\n";
    assert_eq!(rewrite_rename_headers(input, "backend"), expected);
}

#[test]
fn multi_file_mixed_patch_rewrites_each_rename_block() {
    let input = "diff --git a/backend/kept.rs b/backend/kept.rs\n\
                 index 1111111..2222222 100644\n\
                 --- a/backend/kept.rs\n\
                 +++ b/backend/kept.rs\n\
                 @@ -1 +1 @@\n\
                 -foo\n\
                 +bar\n\
                 diff --git a/backend/old.rs b/backend/new.rs\n\
                 similarity index 100%\n\
                 rename from old.rs\n\
                 rename to new.rs\n\
                 diff --git a/backend/other.rs b/backend/other.rs\n\
                 index 3333333..4444444 100644\n\
                 --- a/backend/other.rs\n\
                 +++ b/backend/other.rs\n\
                 @@ -1 +1 @@\n\
                 -baz\n\
                 +qux\n";
    let expected = "diff --git a/backend/kept.rs b/backend/kept.rs\n\
                    index 1111111..2222222 100644\n\
                    --- a/backend/kept.rs\n\
                    +++ b/backend/kept.rs\n\
                    @@ -1 +1 @@\n\
                    -foo\n\
                    +bar\n\
                    diff --git a/backend/old.rs b/backend/new.rs\n\
                    similarity index 100%\n\
                    rename from backend/old.rs\n\
                    rename to backend/new.rs\n\
                    diff --git a/backend/other.rs b/backend/other.rs\n\
                    index 3333333..4444444 100644\n\
                    --- a/backend/other.rs\n\
                    +++ b/backend/other.rs\n\
                    @@ -1 +1 @@\n\
                    -baz\n\
                    +qux\n";
    assert_eq!(rewrite_rename_headers(input, "backend"), expected);
}

#[test]
fn quoted_path_rename_gets_the_prefix_inside_the_quotes() {
    let input = [
        r#"diff --git "a/backend/quote\"file.txt" "#,
        r#""b/backend/newquote\"file.txt""#,
        "\n",
        "similarity index 100%\n",
        r#"rename from "quote\"file.txt""#,
        "\n",
        r#"rename to "newquote\"file.txt""#,
        "\n",
    ].concat();
    let expected = [
        r#"diff --git "a/backend/quote\"file.txt" "#,
        r#""b/backend/newquote\"file.txt""#,
        "\n",
        "similarity index 100%\n",
        r#"rename from "backend/quote\"file.txt""#,
        "\n",
        r#"rename to "backend/newquote\"file.txt""#,
        "\n",
    ].concat();
    assert_eq!(rewrite_rename_headers(&input, "backend"), expected);
}

#[test]
fn text_without_file_blocks_is_unchanged() {
    let input = "rename from old.rs\nrename to new.rs\n";
    assert_eq!(rewrite_rename_headers(input, "backend"), input);
    assert_eq!(rewrite_rename_headers("", "backend"), "");
}

fn output(code: i32, stdout: &str, stderr: &str) -> GitOutput {
    GitOutput { code: Some(code), stdout: stdout.to_owned(), stderr: stderr.to_owned() }
}

fn repo(name: &str) -> Repo {
    Repo { name: name.to_owned(), path: format!("/vmr/{name}") }
}

#[test]
fn child_invocation_carries_prefixes_color_and_paths() {
    assert_eq!(
        diff_invocation("backend", false, ResolvedColor::Never, &vec![".".to_owned()]),
        vec![
            "diff",
            "--src-prefix=a/backend/",
            "--dst-prefix=b/backend/",
            "--color=never",
            "--no-ext-diff",
            "--no-textconv",
            "--binary",
            "--",
            "."
        ]
    );
    assert_eq!(
        diff_invocation("frontend", true, ResolvedColor::Always, &vec![])[..4].to_vec(),
        vec!["diff", "--staged", "--src-prefix=a/frontend/", "--dst-prefix=b/frontend/"]
    );
}

const BACKEND_DIFF: &str = "diff --git a/backend/src/main.rs b/backend/src/main.rs\n\
                            index 1111111..2222222 100644\n\
                            --- a/backend/src/main.rs\n\
                            +++ b/backend/src/main.rs\n\
                            @@ -1 +1 @@\n\
                            -old\n\
                            +new\n";

const FRONTEND_DIFF: &str = "diff --git a/frontend/app.rs b/frontend/app.rs\n\
                             index 3333333..4444444 100644\n\
                             --- a/frontend/app.rs\n\
                             +++ b/frontend/app.rs\n\
                             @@ -1 +1 @@\n\
                             -foo\n\
                             +bar\n";

#[test]
fn combined_diff_concatenates_child_diffs_in_repo_order() {
    let (a, ra) = repo_diff(&repo("backend"), &output(0, BACKEND_DIFF, ""), &Ok(BACKEND_DIFF.to_owned()));
    let (b, rb) = repo_diff(&repo("frontend"), &output(0, FRONTEND_DIFF, ""), &Ok(FRONTEND_DIFF.to_owned()));
    let rendered = match run(&vec![a, b], &vec![ra, rb], None) {
        Ok(r) => r,
        Err(_) => panic!("expected success"),
    };
    assert_eq!(rendered.stdout, format!("{BACKEND_DIFF}{FRONTEND_DIFF}"));
    assert!(rendered.stderr.is_empty());
}

#[test]
fn empty_child_diffs_contribute_nothing() {
    let (a, ra) = repo_diff(&repo("backend"), &output(0, "", ""), &Ok(String::new()));
    let (b, rb) = repo_diff(&repo("frontend"), &output(0, FRONTEND_DIFF, ""), &Ok(FRONTEND_DIFF.to_owned()));
    let rendered = match run(&vec![a, b], &vec![ra, rb], None) {
        Ok(r) => r,
        Err(_) => panic!("expected success"),
    };
    assert_eq!(rendered.stdout, FRONTEND_DIFF);
}

#[test]
fn non_utf8_diff_output_is_rejected_without_lossy_substitution() {
    let (a, ra) = repo_diff(
        &repo("backend"),
        &output(0, "", ""),
        &Err("invalid utf-8 sequence of 1 bytes from index 42".to_owned()),
    );
    let Err(failed) = run(&vec![a], &vec![ra], None) else {
        panic!("expected failure");
    };
    assert!(failed.rendered.stdout.is_empty());
    assert!(failed.message.contains("non-UTF-8 output"));
    assert!(failed.message.contains("backend"));
    assert!(!failed.message.contains('\u{fffd}'));
}

#[test]
fn failing_repo_reports_while_surviving_diffs_still_print() {
    let (a, ra) = repo_diff(&repo("backend"), &output(1, "", "fatal: bad\n"), &Ok(String::new()));
    let (b, rb) = repo_diff(&repo("frontend"), &output(0, FRONTEND_DIFF, ""), &Ok(FRONTEND_DIFF.to_owned()));
    assert!(matches!(rb, RepoOutcome::Success(None)));
    let Err(failed) = run(&vec![a, b], &vec![ra, rb], None) else {
        panic!("expected failure");
    };
    assert_eq!(failed.rendered.stdout, FRONTEND_DIFF);
    assert!(failed.message.contains("git diff failed for"));
    assert!(failed.message.contains("fatal: bad"));
    assert!(failed.message.contains("backend"));
}

#[test]
fn tty_resolves_the_pager_and_shell_through_git_var() {
    let pager = git_var(&output(0, "less\n", ""));
    assert!(needs_shell(&pager));
    let shell = git_var(&output(0, "/usr/bin/sh\n", ""));
    assert_eq!(
        pager_command(pager, shell),
        Some(vec!["/usr/bin/sh".to_owned(), "-c".to_owned(), "less".to_owned()])
    );
}

#[test]
fn failed_shell_resolution_falls_back_to_literal_sh() {
    let pager = git_var(&output(0, "less\n", ""));
    let shell = git_var(&output(1, "", "fatal: unknown\n"));
    assert_eq!(
        pager_command(pager, shell),
        Some(vec!["sh".to_owned(), "-c".to_owned(), "less".to_owned()])
    );
}

#[test]
fn cat_and_empty_resolutions_mean_no_paging() {
    for resolution in ["cat\n", ""] {
        let pager = git_var(&output(0, resolution, ""));
        assert!(!needs_shell(&pager));
        assert_eq!(pager_command(pager, None), None);
    }
}

#[test]
fn failed_resolution_means_no_paging() {
    let pager = git_var(&output(1, "", "boom\n"));
    assert_eq!(pager, None);
    assert_eq!(pager_command(pager, None), None);
}

#[test]
fn failure_output_still_carries_the_pager() {
    let (a, ra) = repo_diff(&repo("backend"), &output(1, "", "fatal: bad\n"), &Ok(String::new()));
    let pager = Some(vec!["/usr/bin/sh".to_owned(), "-c".to_owned(), "less".to_owned()]);
    let Err(failed) = run(&vec![a], &vec![ra], pager.clone()) else {
        panic!("expected failure");
    };
    assert_eq!(failed.rendered.pager, pager);
}

fn child_args(repo: &str, options: &[&str], color: &str, paths: &[&str]) -> Vec<String> {
    let mut args = vec!["diff".to_owned()];
    args.extend(options.iter().map(|o| o.to_string()));
    args.push(format!("--src-prefix=a/{repo}/"));
    args.push(format!("--dst-prefix=b/{repo}/"));
    args.push(format!("--color={color}"));
    args.push("--no-ext-diff".to_owned());
    args.push("--no-textconv".to_owned());
    args.push("--binary".to_owned());
    args.push("--".to_owned());
    args.extend(paths.iter().map(|p| p.to_string()));
    args
}

#[test]
fn staged_flag_and_resolved_color_reach_each_child() {
    let color = resolve_color(ColorWhen::Auto, true, true);
    let whole = git_vmr::routing::whole_vmr(2);
    for (repo, paths) in ["backend", "frontend"].iter().zip(whole.per_repo.iter()) {
        assert_eq!(diff_invocation(repo, true, color, paths), child_args(repo, &["--staged"], "always", &["."]));
    }
}

#[test]
fn routed_paths_reach_only_the_owning_repo() {
    let repos: Vec<Repo> = ["backend", "frontend"]
        .iter()
        .map(|n| Repo { name: n.to_string(), path: format!("/vmr/{n}") })
        .collect();
    let routed = git_vmr::routing::route_paths("/vmr", &repos, "/vmr", &vec!["backend/src/main.rs".to_owned()])
        .ok()
        .unwrap();
    assert_eq!(routed.per_repo[0], vec!["src/main.rs".to_owned()]);
    assert!(routed.per_repo[1].is_empty());
    assert_eq!(
        diff_invocation("backend", false, ResolvedColor::Never, &routed.per_repo[0]),
        child_args("backend", &[], "never", &["src/main.rs"])
    );
}
