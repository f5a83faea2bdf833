use git_vmr::cli::{event_meta, ArgUse, CliMetadata, Level};

fn arg(id: &str, positional: bool, given: bool) -> ArgUse {
    ArgUse { id: id.to_owned(), positional, given }
}

fn top(working_dir: bool) -> Vec<ArgUse> {
    vec![arg("working_dir", false, working_dir), arg("version", false, false)]
}

fn level(name: &str, args: Vec<ArgUse>) -> Level {
    Level { name: name.to_owned(), args }
}

fn meta(working_dir: bool, levels: Vec<Level>) -> CliMetadata {
    event_meta(&top(working_dir), &levels)
}

/// `git-vmr -C /tmp add --chmod=+x src.rs`
fn add_with_chmod() -> CliMetadata {
    meta(
        true,
        vec![level(
            "add",
            vec![arg("force", false, false), arg("all", false, false), arg("chmod", false, true), arg("paths", true, true)],
        )],
    )
}

/// `git-vmr foreach --quiet echo secret`
fn foreach_quiet() -> CliMetadata {
    meta(false, vec![level("foreach", vec![arg("quiet", false, true), arg("command", true, true)])])
}

#[test]
fn records_value_flags_without_values() {
    let m = add_with_chmod();
    assert_eq!(m.name, "add");
    assert_eq!(m.flags, ["chmod"]);
    assert_eq!(m.global_flags, ["working_dir"]);
}

#[test]
fn captures_analytics_metadata_for_value_flags_without_values() {
    let m = add_with_chmod();
    assert_eq!(m.global_flags, ["working_dir"]);
    assert_eq!(m.name, "add");
    assert_eq!(m.flags, ["chmod"]);
}

#[test]
fn records_flag_but_not_trailing_values() {
    let m = foreach_quiet();
    assert_eq!(m.name, "foreach");
    assert_eq!(m.flags, ["quiet"]);
}

#[test]
fn captures_analytics_metadata_for_foreach_without_command_value() {
    let m = foreach_quiet();
    assert_eq!(m.name, "foreach");
    assert_eq!(m.flags, ["quiet"]);
}

#[test]
fn records_count_flag_only_when_given() {
    let moved = |force: bool| {
        meta(
            false,
            vec![
                level("worktree", vec![]),
                level("move", vec![arg("force", false, force), arg("path", true, true), arg("new_path", true, true)]),
            ],
        )
    };
    assert_eq!(moved(true).flags, ["force"]);
    assert_eq!(moved(false).flags, Vec::<String>::new());
}

#[test]
fn records_required_option_as_present() {
    let m = meta(false, vec![level("commit", vec![arg("message", false, true)])]);
    assert_eq!(m.name, "commit");
    assert_eq!(m.flags, ["message"]);
}

#[test]
fn excludes_positional_arguments() {
    let m = meta(false, vec![level("fetch", vec![arg("repository", true, true), arg("refspecs", true, true)])]);
    assert_eq!(m.name, "fetch");
    assert_eq!(m.flags, Vec::<String>::new());
}

#[test]
fn records_defaulted_subcommand_as_invoked() {
    assert_eq!(meta(false, vec![level("worktree", vec![])]).name, "worktree");
    assert_eq!(meta(false, vec![level("worktree", vec![]), level("list", vec![])]).name, "worktree.list");
}

#[test]
fn records_subcommand_alias_under_canonical_name() {
    let m = meta(
        false,
        vec![
            level("worktree", vec![]),
            level("remove", vec![arg("force", false, false), arg("delete", false, false), arg("path", true, true)]),
        ],
    );
    assert_eq!(m.name, "worktree.remove");
}
