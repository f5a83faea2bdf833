use git_vmr::commands::push::{
    answer, classify_bare_push_step, classify_refspec_step, is_url, learn_bare, learn_refspec,
    plan_refspecs, push_invocation, push_mode, push_outcome, query_invocation, repo_results, run,
    BareFacts, BarePush, BareStep, Destination, PushArgs, PushEvidence, PushMode, PushPlan,
    PushQuery, RefspecClass, RefspecFacts, RefspecStep,
};
use git_vmr::commands::push::Answer;
use git_vmr::git::{head_step, GitOutput, HeadStep, Repo, RepoOutcome};

type Script = Vec<(Vec<&'static str>, i32, &'static str, &'static str)>;

fn respond(script: &Script, args: &[String]) -> GitOutput {
    for (want, code, out, err) in script {
        if want.len() == args.len() && want.iter().zip(args).all(|(a, b)| a == b) {
            return GitOutput { code: Some(*code), stdout: out.to_string(), stderr: err.to_string() };
        }
    }
    panic!("unscripted invocation: {:?}", args);
}

fn resolve_head(script: &Script, calls: &mut Vec<Vec<String>>) -> Answer {
    let mut answers = Vec::new();
    loop {
        match head_step("/vmr/backend", &answers) {
            HeadStep::Ask(args) => {
                calls.push(args.clone());
                answers.push(respond(script, &args));
            }
            HeadStep::Found(head) => return Answer::Head(head),
            HeadStep::Failed(e) => panic!("{e}"),
        }
    }
}

fn classify(script: Script) -> (BarePush, Vec<Vec<String>>) {
    let mut facts = BareFacts::unknown();
    let mut calls = Vec::new();
    loop {
        match classify_bare_push_step(None, &facts) {
            BareStep::Decided(class) => return (class, calls),
            BareStep::Ask(query) => {
                let reply = match &query {
                    PushQuery::Head => resolve_head(&script, &mut calls),
                    _ => {
                        let args = query_invocation(&query);
                        calls.push(args.clone());
                        answer(&query, "/vmr/backend", &respond(&script, &args)).unwrap()
                    }
                };
                facts = learn_bare(facts, &query, reply);
            }
        }
    }
}

fn classify_refspec(script: Script, refspec: &str) -> (RefspecClass, Vec<Vec<String>>) {
    let mut facts = RefspecFacts::unknown();
    let mut calls = Vec::new();
    loop {
        match classify_refspec_step("origin", refspec, &facts) {
            RefspecStep::Decided(class) => return (class, calls),
            RefspecStep::Ask(query) => {
                let args = query_invocation(&query);
                calls.push(args.clone());
                let reply = answer(&query, "/vmr/backend", &respond(&script, &args)).unwrap();
                facts = learn_refspec(facts, &query, reply);
            }
        }
    }
}

fn ran_rev_list(calls: &[Vec<String>]) -> bool {
    calls.iter().any(|args| args.first().map(String::as_str) == Some("rev-list"))
}

fn evidence(branch: &str) -> PushEvidence {
    PushEvidence {
        branch: branch.to_owned(),
        explicit_remote: None,
        upstream_remote: None,
        upstream_merge: None,
        push_remote: None,
        remote_push_default: None,
        push_default: None,
    }
}

fn unconfigured_feature_branch() -> Script {
    vec![
        (vec!["symbolic-ref", "--quiet", "--short", "HEAD"], 0, "feature\n", ""),
        (vec!["show-ref", "--verify", "--quiet", "refs/heads/feature"], 0, "", ""),
        (vec!["config", "--get", "branch.feature.remote"], 1, "", ""),
        (vec!["config", "--get", "branch.feature.merge"], 1, "", ""),
        (vec!["config", "--get", "branch.feature.pushRemote"], 1, "", ""),
        (vec!["config", "--get", "remote.pushDefault"], 1, "", ""),
        (vec!["config", "--get", "push.default"], 1, "", ""),
    ]
}

#[test]
fn target_remote_follows_git_precedence() {
    let mut facts = evidence("feature");
    assert_eq!(facts.target_remote(), "origin");

    facts.upstream_remote = Some("upstream".to_owned());
    assert_eq!(facts.target_remote(), "upstream");

    facts.remote_push_default = Some("fork".to_owned());
    assert_eq!(facts.target_remote(), "fork");

    facts.push_remote = Some("mirror".to_owned());
    assert_eq!(facts.target_remote(), "mirror");
}

#[test]
fn destination_defaults_to_the_branch_name_under_simple() {
    let facts = evidence("feature");
    let Destination::Branch(destination) = facts.destination() else {
        panic!("expected a branch destination");
    };
    assert_eq!(destination, "feature");
}

#[test]
fn destination_under_simple_delegates_a_mismatched_upstream_name() {
    let mut facts = evidence("feature");
    facts.upstream_remote = Some("origin".to_owned());
    facts.upstream_merge = Some("refs/heads/other".to_owned());
    assert!(matches!(facts.destination(), Destination::Delegate));
}

#[test]
fn destination_under_simple_ignores_an_upstream_on_another_remote() {
    let mut facts = evidence("feature");
    facts.upstream_remote = Some("upstream".to_owned());
    facts.upstream_merge = Some("refs/heads/other".to_owned());
    facts.push_remote = Some("origin".to_owned());
    let Destination::Branch(destination) = facts.destination() else {
        panic!("expected a branch destination");
    };
    assert_eq!(destination, "feature");
}

#[test]
fn destination_under_current_is_the_branch_name() {
    let mut facts = evidence("feature");
    facts.push_default = Some("current".to_owned());
    facts.upstream_remote = Some("origin".to_owned());
    facts.upstream_merge = Some("refs/heads/other".to_owned());
    let Destination::Branch(destination) = facts.destination() else {
        panic!("expected a branch destination");
    };
    assert_eq!(destination, "feature");
}

#[test]
fn destination_under_upstream_follows_the_merge_ref() {
    let mut facts = evidence("feature");
    facts.push_default = Some("upstream".to_owned());
    facts.upstream_remote = Some("origin".to_owned());
    facts.upstream_merge = Some("refs/heads/other".to_owned());
    let Destination::Branch(destination) = facts.destination() else {
        panic!("expected a branch destination");
    };
    assert_eq!(destination, "other");
}

#[test]
fn destination_under_upstream_delegates_when_no_upstream_matches() {
    let mut facts = evidence("feature");
    facts.push_default = Some("upstream".to_owned());
    assert!(matches!(facts.destination(), Destination::Delegate));
}

#[test]
fn destination_under_upstream_skips_a_non_branch_merge_ref() {
    let mut facts = evidence("feature");
    facts.push_default = Some("upstream".to_owned());
    facts.upstream_remote = Some("origin".to_owned());
    facts.upstream_merge = Some("refs/notes/commits".to_owned());
    let Destination::Skip(reason) = facts.destination() else {
        panic!("expected a skip");
    };
    assert!(reason.contains("refs/notes/commits"));
}

#[test]
fn destination_skips_unrecognized_push_default_values() {
    for value in ["matching", "nothing", "surprise"] {
        let mut facts = evidence("feature");
        facts.push_default = Some(value.to_owned());
        let Destination::Skip(reason) = facts.destination() else {
            panic!("expected a skip for push.default '{value}'");
        };
        assert!(reason.contains(value));
    }
}

#[test]
fn bare_push_delegates_when_the_destination_exists_on_the_remote() {
    let mut script = unconfigured_feature_branch();
    script.push((vec!["show-ref", "--verify", "--quiet", "refs/remotes/origin/feature"], 0, "", ""));
    let (classification, calls) = classify(script);
    assert!(matches!(classification, BarePush::Delegate));
    assert!(!ran_rev_list(&calls));
}

#[test]
fn bare_push_delegates_when_the_tip_has_novel_commits() {
    let mut script = unconfigured_feature_branch();
    script.push((vec!["show-ref", "--verify", "--quiet", "refs/remotes/origin/feature"], 1, "", ""));
    script.push((vec!["rev-list", "-1", "refs/heads/feature", "--not", "--remotes=origin"], 0, "abc123\n", ""));
    let (classification, _) = classify(script);
    assert!(matches!(classification, BarePush::Delegate));
}

#[test]
fn bare_push_skips_an_empty_branch_creation() {
    let mut script = unconfigured_feature_branch();
    script.push((vec!["show-ref", "--verify", "--quiet", "refs/remotes/origin/feature"], 1, "", ""));
    script.push((vec!["rev-list", "-1", "refs/heads/feature", "--not", "--remotes=origin"], 0, "", ""));
    let (classification, calls) = classify(script);
    let BarePush::Skip(reason) = classification else {
        panic!("expected a skip");
    };
    assert!(reason.contains("empty branch"));
    assert!(reason.contains("'feature'"));
    assert!(reason.contains("'origin'"));
    assert!(!calls.iter().any(|args| args.first().map(String::as_str) == Some("push")));
}

#[test]
fn bare_push_skips_a_branch_deleted_on_the_remote() {
    let script: Script = vec![
        (vec!["symbolic-ref", "--quiet", "--short", "HEAD"], 0, "feature\n", ""),
        (vec!["show-ref", "--verify", "--quiet", "refs/heads/feature"], 0, "", ""),
        (vec!["config", "--get", "branch.feature.remote"], 0, "origin\n", ""),
        (vec!["config", "--get", "branch.feature.merge"], 0, "refs/heads/feature\n", ""),
        (vec!["config", "--get", "branch.feature.pushRemote"], 1, "", ""),
        (vec!["config", "--get", "remote.pushDefault"], 1, "", ""),
        (vec!["config", "--get", "push.default"], 1, "", ""),
        (vec!["show-ref", "--verify", "--quiet", "refs/remotes/origin/feature"], 1, "", ""),
        (vec!["rev-list", "-1", "refs/heads/feature", "--not", "--remotes=origin"], 0, "", ""),
    ];
    let (classification, _) = classify(script);
    assert!(matches!(classification, BarePush::Skip(_)));
}

#[test]
fn bare_push_skips_unrecognized_push_default_without_ref_queries() {
    let script: Script = vec![
        (vec!["symbolic-ref", "--quiet", "--short", "HEAD"], 0, "feature\n", ""),
        (vec!["show-ref", "--verify", "--quiet", "refs/heads/feature"], 0, "", ""),
        (vec!["config", "--get", "branch.feature.remote"], 1, "", ""),
        (vec!["config", "--get", "branch.feature.merge"], 1, "", ""),
        (vec!["config", "--get", "branch.feature.pushRemote"], 1, "", ""),
        (vec!["config", "--get", "remote.pushDefault"], 1, "", ""),
        (vec!["config", "--get", "push.default"], 0, "matching\n", ""),
    ];
    let (classification, calls) = classify(script);
    assert!(matches!(classification, BarePush::Skip(_)));
    assert!(!ran_rev_list(&calls));
}

#[test]
fn delete_refspec_always_pushes_without_queries() {
    let (class, calls) = classify_refspec(Vec::new(), ":gone");
    assert!(matches!(class, RefspecClass::Push));
    assert!(calls.is_empty());
}

#[test]
fn wildcard_refspec_skips_as_unclassifiable() {
    let (class, calls) = classify_refspec(Vec::new(), "refs/heads/*:refs/heads/*");
    let RefspecClass::Skip(reason) = class else {
        panic!("expected a skip");
    };
    assert!(reason.contains("refs/heads/*:refs/heads/*"));
    assert!(reason.contains("wildcard"));
    assert!(calls.is_empty());
}

#[test]
fn matching_refspec_skips_as_unclassifiable() {
    let (class, calls) = classify_refspec(Vec::new(), ":");
    let RefspecClass::Skip(reason) = class else {
        panic!("expected a skip");
    };
    assert!(reason.contains("matching"));
    assert!(calls.is_empty());
}

#[test]
fn tag_refspec_always_pushes_without_a_usefulness_check() {
    let script: Script =
        vec![(vec!["rev-parse", "--symbolic-full-name", "v1.0.0"], 0, "refs/tags/v1.0.0\n", "")];
    let (class, calls) = classify_refspec(script, "v1.0.0");
    assert!(matches!(class, RefspecClass::Push));
    assert!(!ran_rev_list(&calls));
}

#[test]
fn explicit_tag_destination_pushes_without_resolving_the_source() {
    let (class, calls) = classify_refspec(Vec::new(), "v1.0.0:refs/tags/v1.0.0");
    assert!(matches!(class, RefspecClass::Push));
    assert!(calls.is_empty());
}

#[test]
fn unresolvable_source_delegates_so_git_reports_it() {
    let script: Script = vec![(vec!["rev-parse", "--symbolic-full-name", "nosuch"], 128, "", "")];
    let (class, _) = classify_refspec(script, "nosuch");
    assert!(matches!(class, RefspecClass::Push));
}

#[test]
fn branch_refspec_skips_an_empty_branch_creation() {
    let script: Script = vec![
        (vec!["rev-parse", "--symbolic-full-name", "feature"], 0, "refs/heads/feature\n", ""),
        (vec!["show-ref", "--verify", "--quiet", "refs/remotes/origin/feature"], 1, "", ""),
        (vec!["rev-list", "-1", "refs/heads/feature", "--not", "--remotes=origin"], 0, "", ""),
    ];
    let (class, _) = classify_refspec(script, "feature");
    let RefspecClass::Skip(reason) = class else {
        panic!("expected a skip");
    };
    assert!(reason.contains("'feature'"));
    assert!(reason.contains("empty branch"));
    assert!(reason.contains("'origin'"));
}

#[test]
fn branch_refspec_pushes_when_the_tip_has_novel_commits() {
    let script: Script = vec![
        (vec!["rev-parse", "--symbolic-full-name", "feature"], 0, "refs/heads/feature\n", ""),
        (vec!["show-ref", "--verify", "--quiet", "refs/remotes/origin/other"], 1, "", ""),
        (vec!["rev-list", "-1", "refs/heads/feature", "--not", "--remotes=origin"], 0, "abc123\n", ""),
    ];
    let (class, _) = classify_refspec(script, "+feature:refs/heads/other");
    assert!(matches!(class, RefspecClass::Push));
}

#[test]
fn branch_refspec_pushes_when_the_destination_exists_on_the_remote() {
    let script: Script = vec![
        (vec!["rev-parse", "--symbolic-full-name", "feature"], 0, "refs/heads/feature\n", ""),
        (vec!["show-ref", "--verify", "--quiet", "refs/remotes/origin/feature"], 0, "", ""),
    ];
    let (class, calls) = classify_refspec(script, "feature");
    assert!(matches!(class, RefspecClass::Push));
    assert!(!ran_rev_list(&calls));
}

#[test]
fn url_repository_argument_is_recognized() {
    assert!(is_url("/repos/project.git"));
    assert!(is_url("git@example.com:project.git"));
    assert!(is_url("https://example.com/project.git"));
    assert!(is_url(r"C:\repos\project"));
    assert!(!is_url("origin"));
    assert!(!is_url("upstream"));
}

#[test]
fn explicit_remote_argument_overrides_configured_remotes() {
    let mut facts = evidence("feature");
    facts.push_remote = Some("mirror".to_owned());
    facts.explicit_remote = Some("origin".to_owned());
    assert_eq!(facts.target_remote(), "origin");
}

#[test]
fn bare_push_delegates_a_detached_head() {
    let script: Script = vec![
        (vec!["symbolic-ref", "--quiet", "--short", "HEAD"], 1, "", ""),
        (vec!["rev-parse", "--short=8", "HEAD"], 0, "abc12345\n", ""),
    ];
    let (classification, calls) = classify(script);
    assert!(matches!(classification, BarePush::Delegate));
    assert!(!calls.iter().any(|args| args.first().map(String::as_str) == Some("config")));
}

fn repo(name: &str, path: &str) -> Repo {
    Repo { name: name.to_owned(), path: path.to_owned() }
}

#[test]
fn push_success_reports_stderr_before_stdout() {
    let output = GitOutput {
        code: Some(0),
        stdout: "stdout chatter\n".to_owned(),
        stderr: "main -> main\n".to_owned(),
    };
    let RepoOutcome::Success(Some(message)) = push_outcome(&repo("backend", "/vmr/backend"), &output)
    else {
        panic!("expected success with message");
    };
    assert_eq!(message.message, "main -> main");
}

#[test]
fn push_mode_follows_the_repository_argument() {
    let bare = PushArgs { repository: None, refspecs: vec![] };
    assert!(matches!(push_mode(&bare), PushMode::Bare(None)));
    let url = PushArgs { repository: Some("https://example.com/x.git".to_owned()), refspecs: vec![] };
    assert!(matches!(push_mode(&url), PushMode::All));
    let remote = PushArgs { repository: Some("origin".to_owned()), refspecs: vec![] };
    assert!(matches!(push_mode(&remote), PushMode::Bare(Some(r)) if r == "origin"));
    let specs = PushArgs { repository: Some("origin".to_owned()), refspecs: vec!["main".to_owned()] };
    assert!(matches!(push_mode(&specs), PushMode::Refspecs(r) if r == "origin"));
}

#[test]
fn refspec_plan_keeps_useful_refspecs_and_reports_the_rest() {
    let refspecs = vec!["main".to_owned(), "feature".to_owned()];
    let classes = vec![RefspecClass::Push, RefspecClass::Skip("skipping 'feature'".to_owned())];
    let plan = plan_refspecs(&refspecs, &classes);
    assert_eq!(plan.attempt, Some(vec!["main".to_owned()]));
    assert_eq!(plan.skips, vec!["skipping 'feature'".to_owned()]);

    let none = plan_refspecs(&vec!["x".to_owned()], &vec![RefspecClass::Skip("why".to_owned())]);
    assert_eq!(none.attempt, None);
}

#[test]
fn push_invocation_names_repository_and_refspecs() {
    assert_eq!(
        push_invocation(&Some("origin".to_owned()), &vec!["main".to_owned()]),
        vec!["push", "origin", "main"]
    );
    assert_eq!(push_invocation(&None, &vec![]), vec!["push"]);
}

#[test]
fn skipped_and_pushed_repositories_aggregate() {
    let backend = repo("backend", "/vmr/backend");
    let frontend = repo("frontend", "/vmr/frontend");
    let skipped = PushPlan { attempt: None, skips: vec!["skipping 'feature'".to_owned()] };
    let pushed = PushPlan { attempt: Some(vec![]), skips: vec![] };
    let ok = GitOutput { code: Some(0), stdout: String::new(), stderr: "main -> main\n".to_owned() };
    let results = vec![repo_results(&backend, &skipped, None), repo_results(&frontend, &pushed, Some(&ok))];
    let rendered = match run(&results, 2) {
        Ok(r) => r,
        Err(_) => panic!("expected success"),
    };
    assert_eq!(rendered.stdout, "main -> main \u{1b}[90m(frontend)\u{1b}[0m\n");
    assert_eq!(rendered.stderr, "skipping 'feature' \u{1b}[90m(backend)\u{1b}[0m\n");
}

#[test]
fn config_query_failure_names_the_key() {
    let q = PushQuery::Config("push.default".to_owned());
    let out = GitOutput { code: Some(3), stdout: String::new(), stderr: "bad config\n".to_owned() };
    let Err(e) = answer(&q, "/vmr/backend", &out) else {
        panic!("expected an error");
    };
    assert_eq!(e, "fatal: failed to read config 'push.default' in '/vmr/backend': bad config");
}
