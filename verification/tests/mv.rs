use git_vmr::cli::mv::{mv_step, MvAction, MvEvent, MvRequest, MvState};
use git_vmr::git::GitOutput;

fn request(source_repo: &str, source_rel: &str, dest_repo: &str, dest_rel: &str) -> MvRequest {
    MvRequest {
        source_repo: source_repo.to_owned(),
        source_rel: source_rel.to_owned(),
        dest_repo: dest_repo.to_owned(),
        dest_rel: dest_rel.to_owned(),
    }
}

fn ran(code: i32, stderr: &str) -> MvEvent {
    MvEvent::Ran(GitOutput { code: Some(code), stdout: String::new(), stderr: stderr.to_owned() })
}

fn is_git(a: &MvAction, repo: &str, args: &[&str]) -> bool {
    match a {
        MvAction::Git { repo: r, args: xs } => r == repo && xs.iter().map(|x| x.as_str()).eq(args.iter().copied()),
        _ => false,
    }
}

fn done_err(a: &MvAction) -> String {
    match a {
        MvAction::Done(Err(e)) => e.clone(),
        _ => panic!("expected a failed end"),
    }
}

#[test]
fn same_repository_move_runs_git_mv() {
    let r = request("/vmr/backend", "a.rs", "/vmr/backend", "b.rs");
    let (s, a) = mv_step(&r, MvState::Start, MvEvent::Begin);
    assert!(is_git(&a, "/vmr/backend", &["mv", "--", "a.rs", "b.rs"]));
    let (_, a) = mv_step(&r, s, ran(0, ""));
    assert!(matches!(a, MvAction::Done(Ok(()))));
}

#[test]
fn same_repository_move_reports_git_failure() {
    let r = request("/vmr/backend", "a.rs", "/vmr/backend", "b.rs");
    let (s, _) = mv_step(&r, MvState::Start, MvEvent::Begin);
    let (_, a) = mv_step(&r, s, ran(128, "fatal: bad source\n"));
    assert_eq!(done_err(&a), "git mv failed for '/vmr/backend': fatal: bad source");
}

#[test]
fn cross_repository_move_checks_renames_and_stages() {
    let r = request("/vmr/backend", "src.rs", "/vmr/frontend", "dst.rs");
    let (s, a) = mv_step(&r, MvState::Start, MvEvent::Begin);
    assert!(is_git(&a, "/vmr/backend", &["ls-files", "--error-unmatch", "--", "src.rs"]));
    let (s, a) = mv_step(&r, s, ran(0, ""));
    assert!(matches!(&a, MvAction::Inspect { path } if path == "/vmr/frontend/dst.rs"));
    let (s, a) = mv_step(&r, s, MvEvent::Found { exists: false, is_dir: false });
    assert!(matches!(&a, MvAction::Inspect { path } if path == "/vmr/frontend"));
    let (s, a) = mv_step(&r, s, MvEvent::Found { exists: true, is_dir: true });
    assert!(matches!(&a, MvAction::Rename { from, to } if from == "/vmr/backend/src.rs" && to == "/vmr/frontend/dst.rs"));
    let (s, a) = mv_step(&r, s, MvEvent::Moved(Ok(())));
    assert!(is_git(&a, "/vmr/backend", &["add", "--", "src.rs"]));
    let (s, a) = mv_step(&r, s, ran(0, ""));
    assert!(is_git(&a, "/vmr/frontend", &["add", "--", "dst.rs"]));
    let (s, a) = mv_step(&r, s, ran(0, ""));
    assert!(matches!(a, MvAction::Done(Ok(()))));
    assert!(matches!(s, MvState::Finished));
}

#[test]
fn cross_repository_move_into_a_directory_keeps_the_file_name() {
    let r = request("/vmr/backend", "lib/src.rs", "/vmr/frontend", "vendor");
    let (s, _) = mv_step(&r, MvState::Start, MvEvent::Begin);
    let (s, _) = mv_step(&r, s, ran(0, ""));
    let (s, a) = mv_step(&r, s, MvEvent::Found { exists: true, is_dir: true });
    assert!(matches!(&a, MvAction::Rename { from, to } if from == "/vmr/backend/lib/src.rs" && to == "/vmr/frontend/vendor/src.rs"));
    let (s, _) = mv_step(&r, s, MvEvent::Moved(Ok(())));
    let (_, a) = mv_step(&r, s, ran(0, ""));
    assert!(is_git(&a, "/vmr/frontend", &["add", "--", "vendor/src.rs"]));
}

#[test]
fn cross_repository_move_refuses_untracked_source() {
    let r = request("/vmr/backend", "src.rs", "/vmr/frontend", "dst.rs");
    let (s, _) = mv_step(&r, MvState::Start, MvEvent::Begin);
    let (_, a) = mv_step(&r, s, ran(1, "error: pathspec 'src.rs' did not match\n"));
    assert_eq!(done_err(&a), "source path is not tracked in '/vmr/backend': error: pathspec 'src.rs' did not match");
}

#[test]
fn cross_repository_move_refuses_existing_destination_and_missing_parent() {
    let r = request("/vmr/backend", "src.rs", "/vmr/frontend", "missing/dst.rs");
    let (s, _) = mv_step(&r, MvState::Start, MvEvent::Begin);
    let (s, _) = mv_step(&r, s, ran(0, ""));
    let (_, a) = mv_step(&r, s, MvEvent::Found { exists: true, is_dir: false });
    assert_eq!(done_err(&a), "destination '/vmr/frontend/missing/dst.rs' already exists");

    let (s, _) = mv_step(&r, MvState::Start, MvEvent::Begin);
    let (s, _) = mv_step(&r, s, ran(0, ""));
    let (s, _) = mv_step(&r, s, MvEvent::Found { exists: false, is_dir: false });
    let (_, a) = mv_step(&r, s, MvEvent::Found { exists: false, is_dir: false });
    assert_eq!(done_err(&a), "destination parent '/vmr/frontend/missing' does not exist");
}

#[test]
fn cross_repository_move_reports_rename_and_staging_failures() {
    let r = request("/vmr/backend", "src.rs", "/vmr/frontend", "dst.rs");
    let (_, a) = mv_step(&r, MvState::Renaming("dst.rs".to_owned()), MvEvent::Moved(Err("Permission denied".to_owned())));
    assert_eq!(done_err(&a), "failed to move '/vmr/backend/src.rs' to '/vmr/frontend/dst.rs': Permission denied");
    let (_, a) = mv_step(&r, MvState::StagingSource("dst.rs".to_owned()), ran(1, "fatal: locked\n"));
    assert_eq!(
        done_err(&a),
        "failed to stage source deletion in '/vmr/backend': git add failed for '/vmr/backend': fatal: locked"
    );
    let (_, a) = mv_step(&r, MvState::StagingDest, ran(1, "fatal: locked\n"));
    assert_eq!(
        done_err(&a),
        "failed to stage destination addition in '/vmr/frontend': git add failed for '/vmr/frontend': fatal: locked"
    );
}
