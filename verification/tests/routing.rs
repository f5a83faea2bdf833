use git_vmr::config::vmr::{child_repos, RootEntry};
use git_vmr::git::Repo;
use git_vmr::routing::{owning, route_path, route_paths, whole_vmr, Route};

const ROOT: &str = "/vmr";

fn repos() -> Vec<Repo> {
    ["backend", "frontend"].iter().map(|n| Repo { name: n.to_string(), path: format!("{ROOT}/{n}") }).collect()
}

fn child(r: &Route) -> (usize, String) {
    match r {
        Route::Child { index, rel } => (*index, rel.clone()),
        _ => panic!("expected a child route"),
    }
}

#[test]
fn routes_paths_into_child_repositories() {
    assert_eq!(child(&route_path(ROOT, &repos(), "/vmr/backend", "src/main.rs")), (0, "src/main.rs".to_owned()));
    assert_eq!(child(&route_path(ROOT, &repos(), "/vmr", "frontend")), (1, ".".to_owned()));
    assert_eq!(child(&route_path(ROOT, &repos(), "/vmr/backend/src", "../../frontend/./app.ts")), (1, "app.ts".to_owned()));
    assert_eq!(child(&route_path(ROOT, &repos(), "/anywhere", "/vmr/backend/a")), (0, "a".to_owned()));
}

#[test]
fn routes_the_root_and_what_lies_outside() {
    assert!(matches!(route_path(ROOT, &repos(), "/vmr/backend", ".."), Route::Root));
    assert!(matches!(route_path(ROOT, &repos(), "/vmr", "docs/readme.md"), Route::Outside));
    assert!(matches!(route_path(ROOT, &repos(), "/vmr", "../elsewhere"), Route::Outside));
    assert!(matches!(route_path(ROOT, &repos(), "/vmr", "/vmrx/backend"), Route::Outside));
}

#[test]
fn routes_several_paths_per_repository() {
    let paths = vec!["a.rs".to_owned(), "../frontend/b.ts".to_owned(), "c.rs".to_owned()];
    let routed = route_paths(ROOT, &repos(), "/vmr/backend", &paths).ok().unwrap();
    assert!(!routed.targets_root);
    assert_eq!(routed.per_repo, vec![vec!["a.rs".to_owned(), "c.rs".to_owned()], vec!["b.ts".to_owned()]]);

    let routed = route_paths(ROOT, &repos(), "/vmr", &vec![".".to_owned()]).ok().unwrap();
    assert!(routed.targets_root);
    assert_eq!(routed.per_repo, vec![vec![".".to_owned()], vec![".".to_owned()]]);
}

#[test]
fn routing_fails_on_the_first_path_outside() {
    let paths = vec!["backend/a.rs".to_owned(), "docs".to_owned(), "../x".to_owned()];
    let err = route_paths(ROOT, &repos(), "/vmr", &paths).err().unwrap();
    assert_eq!(err, "fatal: 'docs' is not in a child Git repository");
}

#[test]
fn unowned_paths_error_like_other_path_taking_commands() {
    let err = route_paths(ROOT, &repos(), ROOT, &vec!["docs/readme.md".to_owned()]).err().unwrap();
    assert!(err.contains("child Git repository"));
}

#[test]
fn whole_vmr_is_the_root_of_every_repository() {
    let routed = whole_vmr(2);
    assert!(routed.targets_root);
    assert_eq!(routed.per_repo, vec![vec![".".to_owned()], vec![".".to_owned()]]);
}

#[test]
fn only_repositories_owning_paths_run() {
    let routed = route_paths(ROOT, &repos(), "/vmr", &vec!["frontend/app.ts".to_owned()]).ok().unwrap();
    let (owners, paths) = owning(&repos(), routed);
    assert_eq!(owners.len(), 1);
    assert_eq!(owners[0].name, "frontend");
    assert_eq!(owners[0].path, "/vmr/frontend");
    assert_eq!(paths, vec![vec!["app.ts".to_owned()]]);
}

#[test]
fn child_repositories_are_git_directories_in_name_order() {
    let entry = |name: &str, is_dir: bool, has_git: bool| RootEntry {
        name: name.to_owned(),
        path: format!("/vmr/{name}"),
        is_dir,
        has_git,
    };
    let repos = child_repos(vec![
        entry("frontend", true, true),
        entry(".gitvmr", true, true),
        entry("docs", true, false),
        entry("notes.txt", false, false),
        entry("backend", true, true),
    ]);
    let names: Vec<&str> = repos.iter().map(|r| r.name.as_str()).collect();
    assert_eq!(names, vec!["backend", "frontend"]);
    assert_eq!(repos[0].path, "/vmr/backend");
}
