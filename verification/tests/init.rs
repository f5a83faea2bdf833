use git_vmr::commands::init::{
    check_target, creation_failure, init_outcome, marker_dir_of, report, resolve_target_dir,
    InitOutcome,
};

const WORKING_DIR: &str = "/tmp/vmr";

#[test]
fn resolves_missing_directory_argument_to_working_dir() {
    assert_eq!(resolve_target_dir(WORKING_DIR, None), WORKING_DIR);
}

#[test]
fn resolves_relative_directory_argument_against_working_dir() {
    assert_eq!(resolve_target_dir(WORKING_DIR, Some("project")), "/tmp/vmr/project");
}

#[test]
fn preserves_absolute_directory_argument() {
    let target = "/tmp/elsewhere/project";
    assert_eq!(resolve_target_dir("/ignored", Some(target)), target);
}

#[test]
fn refuses_a_target_that_is_a_file() {
    assert_eq!(
        check_target("/tmp/vmr/file", true, false).err().unwrap(),
        "fatal: cannot initialize '/tmp/vmr/file': Not a directory"
    );
    assert!(check_target("/tmp/vmr", true, true).is_ok());
    assert!(check_target("/tmp/vmr/new", false, false).is_ok());
}

#[test]
fn creation_failure_names_the_target() {
    assert_eq!(creation_failure("/tmp/vmr"), "fatal: failed to create init directory '/tmp/vmr'");
}

#[test]
fn existing_config_means_reinitialization() {
    assert!(matches!(init_outcome(true), InitOutcome::Reinitialized));
    assert!(matches!(init_outcome(false), InitOutcome::Created));
}

#[test]
fn init_reports_what_it_did() {
    assert_eq!(report("/tmp/vmr", InitOutcome::Created).stdout, "Created .gitvmr in /tmp/vmr\n");
    assert_eq!(
        report("/tmp/vmr", InitOutcome::Reinitialized).stdout,
        "Reinitialized existing virtual monorepo in /tmp/vmr/.gitvmr/\n"
    );
    assert_eq!(marker_dir_of("/tmp/vmr"), "/tmp/vmr/.gitvmr");
}
