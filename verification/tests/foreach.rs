use git_vmr::commands::foreach::{
    display_path_of, finish, render, root_relative_of, shell_line, ChildOutput, ChildStatus,
};
use git_vmr::render::Rendered;

fn rendered(stdout: &str) -> Rendered {
    Rendered { stdout: stdout.to_owned(), stderr: String::new(), pager: None }
}

#[test]
fn child_status_follows_the_exit_code() {
    assert!(ChildStatus::from_exit(Some(0)).success());
    assert!(matches!(ChildStatus::from_exit(Some(3)), ChildStatus::Exit(3)));
    assert!(matches!(ChildStatus::from_exit(None), ChildStatus::Signal));
}

#[test]
fn child_status_descriptions() {
    assert_eq!(ChildStatus::Success.describe(), "exit status 0");
    assert_eq!(ChildStatus::Exit(2).describe(), "exit status 2");
    assert_eq!(ChildStatus::Exit(-1).describe(), "exit status -1");
    assert_eq!(ChildStatus::Exit(i32::MIN).describe(), "exit status -2147483648");
    assert_eq!(ChildStatus::Signal.describe(), "terminated by signal");
}

#[test]
fn shell_line_joins_the_words() {
    assert_eq!(shell_line(&vec!["git".to_owned(), "status".to_owned(), "-s".to_owned()]), "git status -s");
    assert_eq!(shell_line(&vec![]), "");
}

#[test]
fn child_paths_for_the_environment() {
    assert_eq!(display_path_of("/vmr/backend", "/vmr/backend"), ".");
    assert_eq!(display_path_of("/vmr/backend", "/vmr"), "backend");
    assert_eq!(display_path_of("/vmr/backend", "/vmr/frontend"), "../backend");
    assert_eq!(root_relative_of("/vmr/libs/core", "/vmr"), "libs/core");
    assert_eq!(root_relative_of("/elsewhere/core", "/vmr"), "/elsewhere/core");
}

#[test]
fn foreach_succeeds_when_every_command_succeeds() {
    let children = vec![("backend".to_owned(), ChildStatus::Success), ("frontend".to_owned(), ChildStatus::Success)];
    let r = finish(&children, rendered("out\n")).ok().unwrap();
    assert_eq!(r.stdout, "out\n");
}

#[test]
fn foreach_fails_with_a_line_per_failed_child() {
    let children = vec![
        ("backend".to_owned(), ChildStatus::Exit(1)),
        ("frontend".to_owned(), ChildStatus::Success),
        ("tools".to_owned(), ChildStatus::Signal),
    ];
    let f = finish(&children, rendered("partial\n")).err().unwrap();
    assert_eq!(f.rendered.stdout, "partial\n");
    assert_eq!(
        f.message,
        "fatal: command failed in 'backend' with exit status 1\nfatal: command failed in 'tools' with terminated by signal\nfatal: foreach failed"
    );
}

#[test]
fn foreach_output_concatenates_children_in_order() {
    let children = vec![
        ChildOutput { repo: "backend".to_owned(), stdout: "b\n".to_owned(), stderr: "warn b\n".to_owned() },
        ChildOutput { repo: "frontend".to_owned(), stdout: "f\n".to_owned(), stderr: String::new() },
    ];
    let loud = render(&children, false);
    assert_eq!(loud.stdout, "b\nf\n");
    assert_eq!(loud.stderr, "warn b\n");
    let quiet = render(&children, true);
    assert_eq!(quiet.stdout, "");
    assert_eq!(quiet.stderr, "warn b\n");
}
