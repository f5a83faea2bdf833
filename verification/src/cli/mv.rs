//! `mv` of the front end that reads the child repositories of a VMR root
//! directly, once both operands are routed to their child repositories.
//!
//! A move within one repository is `git mv`. A move across repositories is
//! made by hand: the source must be tracked, the destination is resolved
//! as `git mv` does (into an existing directory, else as a new path whose
//! parent exists and that does not exist yet), and only then is the path
//! renamed on disk and both sides staged.
//!
//! The decisions are a state machine: each step takes what the last action
//! found and names the next action; the caller performs it.

use crate::git::{args_of, views, GitOutput};
use crate::paths::{file_name_of, join_path, parent_of, path_file_name, path_join, path_parent};
use crate::text::{chars_of, extend, lit, same, string_of, trim, trimmed};
use vstd::prelude::*;

verus! {

/// A move whose operands are routed: each is a child repository's path
/// and a path relative to it.
pub struct MvRequest {
    pub source_repo: String,
    pub source_rel: String,
    pub dest_repo: String,
    pub dest_rel: String,
}

/// Where a move stands.
pub enum MvState {
    Start,
    /// `git mv` runs in the one repository.
    Moving,
    /// The source's tracking is being checked.
    Checking,
    /// The destination path is being inspected.
    Inspecting,
    /// The parent (the payload) of a new destination path is being
    /// inspected.
    InspectingParent(String),
    /// The source is being renamed to the destination (the payload,
    /// relative to its repository).
    Renaming(String),
    /// The source's deletion is being staged.
    StagingSource(String),
    /// The destination's addition is being staged.
    StagingDest,
    Finished,
}

/// What the last action found.
pub enum MvEvent {
    /// The move begins.
    Begin,
    /// The output of the git invocation.
    Ran(GitOutput),
    /// Whether the inspected path exists and whether it is a directory.
    Found { exists: bool, is_dir: bool },
    /// Whether the rename succeeded, with the reason when it did not.
    Moved(Result<(), String>),
}

/// The next action.
pub enum MvAction {
    /// Run git with these arguments in this repository.
    Git { repo: String, args: Vec<String> },
    /// Report whether this path exists and whether it is a directory.
    Inspect { path: String },
    /// Rename a path on disk.
    Rename { from: String, to: String },
    /// The move is over, with its result.
    Done(Result<(), String>),
}

/// The model of a move's state.
pub enum StateView {
    Start,
    Moving,
    Checking,
    Inspecting,
    InspectingParent(Seq<char>),
    Renaming(Seq<char>),
    StagingSource(Seq<char>),
    StagingDest,
    Finished,
}

/// The model of an action.
pub enum ActionView {
    Git(Seq<char>, Seq<Seq<char>>),
    Inspect(Seq<char>),
    Rename(Seq<char>, Seq<char>),
    Done(Result<(), Seq<char>>),
}

impl View for MvState {
    type V = StateView;

    open spec fn view(&self) -> StateView {
        match self {
            MvState::Start => StateView::Start,
            MvState::Moving => StateView::Moving,
            MvState::Checking => StateView::Checking,
            MvState::Inspecting => StateView::Inspecting,
            MvState::InspectingParent(p) => StateView::InspectingParent(p@),
            MvState::Renaming(f) => StateView::Renaming(f@),
            MvState::StagingSource(f) => StateView::StagingSource(f@),
            MvState::StagingDest => StateView::StagingDest,
            MvState::Finished => StateView::Finished,
        }
    }
}

impl View for MvAction {
    type V = ActionView;

    open spec fn view(&self) -> ActionView {
        match self {
            MvAction::Git { repo, args } => ActionView::Git(repo@, views(args@)),
            MvAction::Inspect { path } => ActionView::Inspect(path@),
            MvAction::Rename { from, to } => ActionView::Rename(from@, to@),
            MvAction::Done(r) => ActionView::Done(
                match r {
                    Ok(()) => Ok(()),
                    Err(e) => Err(e@),
                },
            ),
        }
    }
}

/// The arguments of `git mv` of `from` to `to`.
pub open spec fn mv_query(from: Seq<char>, to: Seq<char>) -> Seq<Seq<char>> {
    seq!["mv"@, "--"@, from, to]
}

/// The arguments of the query whether `path` is tracked.
pub open spec fn tracked_query(path: Seq<char>) -> Seq<Seq<char>> {
    seq!["ls-files"@, "--error-unmatch"@, "--"@, path]
}

/// The arguments of `git add` of `path`.
pub open spec fn add_query(path: Seq<char>) -> Seq<Seq<char>> {
    seq!["add"@, "--"@, path]
}

/// The error of a failed git command in `repo`.
pub open spec fn git_failure(command: Seq<char>, repo: Seq<char>, stderr: Seq<char>) -> Seq<char> {
    "git "@ + command + " failed for '"@ + repo + "': "@ + trim(stderr)
}

/// The source on disk.
pub open spec fn source_path(r: MvRequest) -> Seq<char> {
    path_join(r.source_repo@, r.source_rel@)
}

/// The destination as given, on disk.
pub open spec fn dest_path(r: MvRequest) -> Seq<char> {
    path_join(r.dest_repo@, r.dest_rel@)
}

/// The rename of the source to the destination `f` (relative to the
/// destination repository).
pub open spec fn rename_to(r: MvRequest, f: Seq<char>) -> (StateView, ActionView) {
    (StateView::Renaming(f), ActionView::Rename(source_path(r), path_join(r.dest_repo@, f)))
}

/// A finished move with this result.
pub open spec fn done(result: Result<(), Seq<char>>) -> (StateView, ActionView) {
    (StateView::Finished, ActionView::Done(result))
}

/// Whether an event is what the state waits for.
pub open spec fn expects(s: StateView, e: MvEvent) -> bool {
    match s {
        StateView::Start => e is Begin,
        StateView::Moving | StateView::Checking | StateView::StagingSource(_)
        | StateView::StagingDest => e is Ran,
        StateView::Inspecting | StateView::InspectingParent(_) => e is Found,
        StateView::Renaming(_) => e is Moved,
        StateView::Finished => false,
    }
}

/// One step of a move: from the state and what the last action found, the
/// next state and action.
pub open spec fn mv_transition(r: MvRequest, s: StateView, e: MvEvent) -> (StateView, ActionView) {
    match s {
        StateView::Start => if r.source_repo@ == r.dest_repo@ {
            (StateView::Moving, ActionView::Git(r.source_repo@, mv_query(r.source_rel@, r.dest_rel@)))
        } else {
            (StateView::Checking, ActionView::Git(r.source_repo@, tracked_query(r.source_rel@)))
        },
        StateView::Moving => match e {
            MvEvent::Ran(o) => if o.succeeded() {
                done(Ok(()))
            } else {
                done(Err(git_failure("mv"@, r.source_repo@, o.stderr@)))
            },
            _ => done(Ok(())),
        },
        StateView::Checking => match e {
            MvEvent::Ran(o) => if o.succeeded() {
                (StateView::Inspecting, ActionView::Inspect(dest_path(r)))
            } else {
                done(
                    Err(
                        "source path is not tracked in '"@ + r.source_repo@ + "': "@ + trim(
                            o.stderr@,
                        ),
                    ),
                )
            },
            _ => done(Ok(())),
        },
        StateView::Inspecting => match e {
            MvEvent::Found { exists, is_dir } => if is_dir {
                match path_file_name(r.source_rel@) {
                    Some(n) => rename_to(r, path_join(r.dest_rel@, n)),
                    None => done(Err("source path does not have a file name"@)),
                }
            } else if exists {
                done(Err("destination '"@ + dest_path(r) + "' already exists"@))
            } else {
                match path_parent(dest_path(r)) {
                    Some(p) => (StateView::InspectingParent(p), ActionView::Inspect(p)),
                    None => done(Err("destination path does not have a parent"@)),
                }
            },
            _ => done(Ok(())),
        },
        StateView::InspectingParent(p) => match e {
            MvEvent::Found { is_dir, .. } => if is_dir {
                rename_to(r, r.dest_rel@)
            } else {
                done(Err("destination parent '"@ + p + "' does not exist"@))
            },
            _ => done(Ok(())),
        },
        StateView::Renaming(f) => match e {
            MvEvent::Moved(Ok(())) => (
                StateView::StagingSource(f),
                ActionView::Git(r.source_repo@, add_query(r.source_rel@)),
            ),
            MvEvent::Moved(Err(why)) => done(
                Err(
                    "failed to move '"@ + source_path(r) + "' to '"@ + path_join(r.dest_repo@, f)
                        + "': "@ + why@,
                ),
            ),
            _ => done(Ok(())),
        },
        StateView::StagingSource(f) => match e {
            MvEvent::Ran(o) => if o.succeeded() {
                (StateView::StagingDest, ActionView::Git(r.dest_repo@, add_query(f)))
            } else {
                done(
                    Err(
                        "failed to stage source deletion in '"@ + r.source_repo@ + "': "@
                            + git_failure("add"@, r.source_repo@, o.stderr@),
                    ),
                )
            },
            _ => done(Ok(())),
        },
        StateView::StagingDest => match e {
            MvEvent::Ran(o) => if o.succeeded() {
                done(Ok(()))
            } else {
                done(
                    Err(
                        "failed to stage destination addition in '"@ + r.dest_repo@ + "': "@
                            + git_failure("add"@, r.dest_repo@, o.stderr@),
                    ),
                )
            },
            _ => done(Ok(())),
        },
        StateView::Finished => done(Ok(())),
    }
}

fn git_failure_of(command: &str, repo: &str, stderr: &str) -> (r: Vec<char>)
    ensures
        r@ == git_failure(command@, repo@, stderr@),
{
    let mut m = lit("git ");
    extend(&mut m, &chars_of(command));
    extend(&mut m, &lit(" failed for '"));
    extend(&mut m, &chars_of(repo));
    extend(&mut m, &lit("': "));
    extend(&mut m, &trimmed(&chars_of(stderr)));
    m
}

fn finished(result: Result<(), Vec<char>>) -> (r: (MvState, MvAction))
    ensures
        (r.0@, r.1@) == done(match result {
            Ok(()) => Ok(()),
            Err(e) => Err(e@),
        }),
{
    match result {
        Ok(()) => (MvState::Finished, MvAction::Done(Ok(()))),
        Err(e) => (MvState::Finished, MvAction::Done(Err(string_of(&e)))),
    }
}

fn git_step(state: MvState, repo: &str, args: Vec<&str>) -> (r: (MvState, MvAction))
    ensures
        r.0 == state,
        r.1@ == ActionView::Git(repo@, args@.map_values(|a: &str| a@)),
{
    let a = args_of(&args);
    assert(views(a@) =~= args@.map_values(|x: &str| x@));
    (state, MvAction::Git { repo: string_of(&chars_of(repo)), args: a })
}

/// One step of a move: from the state and what the last action found, the
/// next state and the next action.
#[verifier::rlimit(40)]
pub fn mv_step(r: &MvRequest, state: MvState, event: MvEvent) -> (next: (MvState, MvAction))
    requires
        expects(state@, event),
    ensures
        (next.0@, next.1@) == mv_transition(*r, state@, event),
{
    proof {
        reveal_strlit("mv");
        reveal_strlit("add");
    }
    match state {
        MvState::Start => {
            if same(&chars_of(r.source_repo.as_str()), &chars_of(r.dest_repo.as_str())) {
                let args = vec!["mv", "--", r.source_rel.as_str(), r.dest_rel.as_str()];
                proof {
                    reveal_strlit("--");
                    assert(args@.map_values(|a: &str| a@) =~= mv_query(r.source_rel@, r.dest_rel@));
                }
                git_step(MvState::Moving, r.source_repo.as_str(), args)
            } else {
                let args = vec!["ls-files", "--error-unmatch", "--", r.source_rel.as_str()];
                proof {
                    reveal_strlit("--");
                    reveal_strlit("ls-files");
                    reveal_strlit("--error-unmatch");
                    assert(args@.map_values(|a: &str| a@) =~= tracked_query(r.source_rel@));
                }
                git_step(MvState::Checking, r.source_repo.as_str(), args)
            }
        },
        MvState::Moving => match event {
            MvEvent::Ran(o) => if o.success() {
                finished(Ok(()))
            } else {
                finished(Err(git_failure_of("mv", r.source_repo.as_str(), o.stderr.as_str())))
            },
            _ => finished(Ok(())),
        },
        MvState::Checking => match event {
            MvEvent::Ran(o) => if o.success() {
                (MvState::Inspecting, MvAction::Inspect { path: join_path(r.dest_repo.as_str(), r.dest_rel.as_str()) })
            } else {
                let mut m = lit("source path is not tracked in '");
                extend(&mut m, &chars_of(r.source_repo.as_str()));
                extend(&mut m, &lit("': "));
                extend(&mut m, &trimmed(&chars_of(o.stderr.as_str())));
                finished(Err(m))
            },
            _ => finished(Ok(())),
        },
        MvState::Inspecting => match event {
            MvEvent::Found { exists, is_dir } => {
                let dest = join_path(r.dest_repo.as_str(), r.dest_rel.as_str());
                if is_dir {
                    match file_name_of(r.source_rel.as_str()) {
                        Some(n) => {
                            let f = join_path(r.dest_rel.as_str(), n.as_str());
                            let to = join_path(r.dest_repo.as_str(), f.as_str());
                            (MvState::Renaming(f), MvAction::Rename { from: join_path(r.source_repo.as_str(), r.source_rel.as_str()), to })
                        },
                        None => finished(Err(lit("source path does not have a file name"))),
                    }
                } else if exists {
                    let mut m = lit("destination '");
                    extend(&mut m, &chars_of(dest.as_str()));
                    extend(&mut m, &lit("' already exists"));
                    finished(Err(m))
                } else {
                    match parent_of(dest.as_str()) {
                        Some(p) => {
                            let q = string_of(&chars_of(p.as_str()));
                            (MvState::InspectingParent(p), MvAction::Inspect { path: q })
                        },
                        None => finished(Err(lit("destination path does not have a parent"))),
                    }
                }
            },
            _ => finished(Ok(())),
        },
        MvState::InspectingParent(p) => match event {
            MvEvent::Found { is_dir, .. } => if is_dir {
                let to = join_path(r.dest_repo.as_str(), r.dest_rel.as_str());
                (
                    MvState::Renaming(string_of(&chars_of(r.dest_rel.as_str()))),
                    MvAction::Rename { from: join_path(r.source_repo.as_str(), r.source_rel.as_str()), to },
                )
            } else {
                let mut m = lit("destination parent '");
                extend(&mut m, &chars_of(p.as_str()));
                extend(&mut m, &lit("' does not exist"));
                finished(Err(m))
            },
            _ => finished(Ok(())),
        },
        MvState::Renaming(f) => match event {
            MvEvent::Moved(Ok(())) => {
                let args = vec!["add", "--", r.source_rel.as_str()];
                proof {
                    reveal_strlit("--");
                    assert(args@.map_values(|a: &str| a@) =~= add_query(r.source_rel@));
                }
                git_step(MvState::StagingSource(f), r.source_repo.as_str(), args)
            },
            MvEvent::Moved(Err(why)) => {
                let mut m = lit("failed to move '");
                extend(&mut m, &chars_of(join_path(r.source_repo.as_str(), r.source_rel.as_str()).as_str()));
                extend(&mut m, &lit("' to '"));
                extend(&mut m, &chars_of(join_path(r.dest_repo.as_str(), f.as_str()).as_str()));
                extend(&mut m, &lit("': "));
                extend(&mut m, &chars_of(why.as_str()));
                finished(Err(m))
            },
            _ => finished(Ok(())),
        },
        MvState::StagingSource(f) => match event {
            MvEvent::Ran(o) => if o.success() {
                let args = vec!["add", "--", f.as_str()];
                proof {
                    reveal_strlit("--");
                    assert(args@.map_values(|a: &str| a@) =~= add_query(f@));
                }
                git_step(MvState::StagingDest, r.dest_repo.as_str(), args)
            } else {
                let mut m = lit("failed to stage source deletion in '");
                extend(&mut m, &chars_of(r.source_repo.as_str()));
                extend(&mut m, &lit("': "));
                extend(&mut m, &git_failure_of("add", r.source_repo.as_str(), o.stderr.as_str()));
                finished(Err(m))
            },
            _ => finished(Ok(())),
        },
        MvState::StagingDest => match event {
            MvEvent::Ran(o) => if o.success() {
                finished(Ok(()))
            } else {
                let mut m = lit("failed to stage destination addition in '");
                extend(&mut m, &chars_of(r.dest_repo.as_str()));
                extend(&mut m, &lit("': "));
                extend(&mut m, &git_failure_of("add", r.dest_repo.as_str(), o.stderr.as_str()));
                finished(Err(m))
            },
            _ => finished(Ok(())),
        },
        MvState::Finished => finished(Ok(())),
    }
}

/// The steps of a move fed `events` from the start: after each event, the
/// next state and action.
pub open spec fn mv_run(r: MvRequest, events: Seq<MvEvent>) -> Seq<(StateView, ActionView)>
    decreases events.len(),
{
    if events.len() == 0 {
        Seq::empty()
    } else {
        let prev = mv_run(r, events.drop_last());
        let s = if prev.len() == 0 {
            StateView::Start
        } else {
            prev.last().0
        };
        prev.push(mv_transition(r, s, events.last()))
    }
}

/// The state a move is in before event `k`.
pub open spec fn state_before(r: MvRequest, events: Seq<MvEvent>, k: int) -> StateView {
    if k == 0 {
        StateView::Start
    } else {
        mv_run(r, events)[k - 1].0
    }
}

proof fn lemma_run_prefix(r: MvRequest, events: Seq<MvEvent>, n: int)
    requires
        0 <= n <= events.len(),
    ensures
        mv_run(r, events).len() == events.len(),
        mv_run(r, events.take(n)) == mv_run(r, events).take(n),
    decreases events.len(),
{
    if events.len() > 0 {
        lemma_run_prefix(r, events.drop_last(), 0);
        if n < events.len() {
            assert(events.take(n) =~= events.drop_last().take(n));
            lemma_run_prefix(r, events.drop_last(), n);
        } else {
            assert(events.take(n) =~= events);
        }
        assert(mv_run(r, events).take(n) =~= mv_run(r, events.take(n)));
    } else {
        assert(events.take(n) =~= events);
    }
}

proof fn lemma_run_step(r: MvRequest, events: Seq<MvEvent>, k: int)
    requires
        0 <= k < events.len(),
    ensures
        mv_run(r, events).len() == events.len(),
        mv_run(r, events)[k] == mv_transition(r, state_before(r, events, k), events[k]),
{
    lemma_run_prefix(r, events, k + 1);
    lemma_run_prefix(r, events, k);
    let t = events.take(k + 1);
    assert(t.drop_last() =~= events.take(k));
    lemma_run_prefix(r, events.take(k), 0);
    let prev = mv_run(r, events.take(k));
    assert(prev.len() == k);
    assert(t.last() == events[k]);
    assert(mv_run(r, t) == prev.push(
        mv_transition(r, if prev.len() == 0 { StateView::Start } else { prev.last().0 }, events[k]),
    ));
    assert(mv_run(r, events)[k] == mv_run(r, t)[k]);
    if k > 0 {
        assert(prev.last() == mv_run(r, events)[k - 1]);
    }
}

/// Whether a state comes after the source was found tracked.
pub open spec fn past_check(s: StateView) -> bool {
    ||| s is Inspecting
    ||| s is InspectingParent
    ||| s is Renaming
    ||| s is StagingSource
    ||| s is StagingDest
}

/// Whether the step before event `j` asked whether the source is tracked
/// and event `j` says it is.
pub open spec fn tracked_at(r: MvRequest, events: Seq<MvEvent>, j: int) -> bool {
    &&& 1 <= j < events.len()
    &&& mv_run(r, events)[j - 1].1 == ActionView::Git(r.source_repo@, tracked_query(r.source_rel@))
    &&& events[j] matches MvEvent::Ran(o) && o.succeeded()
}

proof fn lemma_past_check(r: MvRequest, events: Seq<MvEvent>, k: int)
    requires
        0 <= k < events.len(),
        past_check(mv_run(r, events)[k].0) || mv_run(r, events)[k].1 is Rename,
    ensures
        exists|j: int| 1 <= j <= k && #[trigger] tracked_at(r, events, j),
    decreases k,
{
    lemma_run_step(r, events, k);
    let s = state_before(r, events, k);
    if s is Checking {
        assert(k >= 1);
        lemma_run_step(r, events, k - 1);
        let p = state_before(r, events, k - 1);
        assert(p is Start);
        assert(tracked_at(r, events, k));
    } else {
        assert(k >= 1);
        lemma_past_check(r, events, k - 1);
        let j = choose|j: int| 1 <= j <= k - 1 && #[trigger] tracked_at(r, events, j);
        assert(tracked_at(r, events, j));
    }
}

/// A move across repositories changes the disk only after the source was
/// found tracked: every rename comes after a step that asked git whether
/// the source is tracked and an answer that it is.
pub proof fn rename_only_after_tracked_source(r: MvRequest, events: Seq<MvEvent>, k: int)
    requires
        0 <= k < events.len(),
        mv_run(r, events)[k].1 is Rename,
    ensures
        exists|j: int| 1 <= j <= k && #[trigger] tracked_at(r, events, j),
{
    lemma_past_check(r, events, k);
}

/// A move within one repository is `git mv` alone: no step renames
/// anything on disk or stages by hand, whatever the events.
pub proof fn same_repository_move_is_git_mv(r: MvRequest, events: Seq<MvEvent>, k: int)
    requires
        r.source_repo@ == r.dest_repo@,
        0 <= k < events.len(),
    ensures
        mv_run(r, events)[k].0 is Moving || mv_run(r, events)[k].0 is Finished,
        k == 0 ==> mv_run(r, events)[k].1 == ActionView::Git(
            r.source_repo@,
            mv_query(r.source_rel@, r.dest_rel@),
        ),
        k > 0 ==> mv_run(r, events)[k].1 is Done,
    decreases k,
{
    lemma_run_step(r, events, k);
    if k > 0 {
        same_repository_move_is_git_mv(r, events, k - 1);
    }
}

} // verus!
