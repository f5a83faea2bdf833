//! `push`: push, in each child repository, only the useful subset of the
//! push.
//!
//! A push that would only create an empty branch on the remote pollutes
//! it, so each repository's push is classified from local evidence before
//! anything is sent. Gathering the evidence takes git queries, and which
//! query comes next depends on the answers so far: the classification is a
//! step function from the facts gathered to either a decision or the next
//! query, and the application runs the loop, answering each query through
//! git.

use crate::git::{
    args_of, skip_message, stderr, stdout_failure, stdout_or_error, views, GitOutput, Head, OutcomeView,
    Repo, RepoOutcome,
};
use crate::render::{aggregate, outcome_pairs, outcome_views, outcomes, Failed, Rendered};
use crate::report::{
    command_result, reported_outcome, FailureModel, FailureReport, OnEmpty, Streams, SuccessModel,
    SuccessReport,
};
use crate::text::{
    chars_of, extend, find_char, find_from, has_char, is_at, lemma_find_from, lit, occurs_at,
    same, slice_of, starts_with, string_of, trim, trimmed,
};
use vstd::prelude::*;

verus! {

/// Update remote refs along with associated objects.
pub struct PushArgs {
    /// The "remote" repository that is the destination of a push operation
    pub repository: Option<String>,
    /// Specify what destination ref to update with what source object
    pub refspecs: Vec<String>,
}

/// How a bare push classified: attempt it (delegating everything else to
/// git) or deliberately withhold it, with the reason to report.
pub enum BarePush {
    Delegate,
    Skip(String),
}

/// How one explicit refspec classified in one repo: pass it to `git push`
/// or withhold it, with the reason to report.
pub enum RefspecClass {
    Push,
    Skip(String),
}

/// A classification in the model: attempt, or withhold with a reason.
pub enum Class {
    Attempt,
    Withhold(Seq<char>),
}

impl View for BarePush {
    type V = Class;

    open spec fn view(&self) -> Class {
        match self {
            BarePush::Delegate => Class::Attempt,
            BarePush::Skip(r) => Class::Withhold(r@),
        }
    }
}

impl View for RefspecClass {
    type V = Class;

    open spec fn view(&self) -> Class {
        match self {
            RefspecClass::Push => Class::Attempt,
            RefspecClass::Skip(r) => Class::Withhold(r@),
        }
    }
}

/// One repo's classified push: the refspec subset to attempt (`None`
/// means no git invocation at all) and the skip reasons to report
/// alongside it.
pub struct PushPlan {
    pub attempt: Option<Vec<String>>,
    pub skips: Vec<String>,
}

impl PushPlan {
    /// Attempt every given refspec, skipping none.
    pub fn attempt_all(refspecs: Vec<String>) -> (p: PushPlan)
        ensures
            p.attempt == Some(refspecs),
            p.skips@.len() == 0,
    {
        PushPlan { attempt: Some(refspecs), skips: Vec::new() }
    }

    /// The plan of a bare push: delegate attempts it with no refspecs;
    /// a skip attempts nothing and reports its reason.
    pub fn from_bare(classification: BarePush) -> (p: PushPlan)
        ensures
            classification is Delegate ==> (p.attempt matches Some(v) && v@.len() == 0
                && p.skips@.len() == 0),
            classification is Skip ==> (p.attempt is None && p.skips@.len() == 1
                && p.skips@[0] == classification->Skip_0),
    {
        match classification {
            BarePush::Delegate => PushPlan::attempt_all(Vec::new()),
            BarePush::Skip(reason) => PushPlan { attempt: None, skips: vec![reason] },
        }
    }
}

/// A repository argument that cannot be a configured remote name — git
/// forbids '/' and ':' in remote names — is a URL or path.
pub open spec fn spec_is_url(repository: Seq<char>) -> bool {
    repository.contains('/') || repository.contains(':') || repository.contains('\\')
}

/// Whether the repository argument names a URL or a path rather than a
/// configured remote: the whole push then delegates unfiltered.
pub fn is_url(repository: &str) -> (r: bool)
    ensures
        r == spec_is_url(repository@),
{
    let v = chars_of(repository);
    has_char(&v, '/') || has_char(&v, ':') || has_char(&v, '\\')
}

/// Where a bare push would land, or the classification when resolution
/// ends early.
pub enum Destination {
    Branch(String),
    Delegate,
    Skip(String),
}

/// A destination in the model.
pub enum Landing {
    Branch(Seq<char>),
    Delegate,
    Skip(Seq<char>),
}

impl View for Destination {
    type V = Landing;

    open spec fn view(&self) -> Landing {
        match self {
            Destination::Branch(b) => Landing::Branch(b@),
            Destination::Delegate => Landing::Delegate,
            Destination::Skip(r) => Landing::Skip(r@),
        }
    }
}

/// The local facts a bare push is judged on: the branch and the config
/// that steers `git push` without arguments.
pub struct PushEvidence {
    pub branch: String,
    pub explicit_remote: Option<String>,
    pub upstream_remote: Option<String>,
    pub upstream_merge: Option<String>,
    pub push_remote: Option<String>,
    pub remote_push_default: Option<String>,
    pub push_default: Option<String>,
}

/// The evidence in the model.
pub struct Evidence {
    pub branch: Seq<char>,
    pub explicit_remote: Option<Seq<char>>,
    pub upstream_remote: Option<Seq<char>>,
    pub upstream_merge: Option<Seq<char>>,
    pub push_remote: Option<Seq<char>>,
    pub remote_push_default: Option<Seq<char>>,
    pub push_default: Option<Seq<char>>,
}

impl View for PushEvidence {
    type V = Evidence;

    open spec fn view(&self) -> Evidence {
        Evidence {
            branch: self.branch@,
            explicit_remote: self.explicit_remote.deep_view(),
            upstream_remote: self.upstream_remote.deep_view(),
            upstream_merge: self.upstream_merge.deep_view(),
            push_remote: self.push_remote.deep_view(),
            remote_push_default: self.remote_push_default.deep_view(),
            push_default: self.push_default.deep_view(),
        }
    }
}

/// The remote a bare `git push` targets, in git's precedence order: the
/// explicit argument, `branch.<name>.pushRemote`, `remote.pushDefault`,
/// the upstream remote, then `origin`.
pub open spec fn target_remote_of(e: Evidence) -> Seq<char> {
    match e.explicit_remote {
        Some(r) => r,
        None => match e.push_remote {
            Some(r) => r,
            None => match e.remote_push_default {
                Some(r) => r,
                None => match e.upstream_remote {
                    Some(r) => r,
                    None => "origin"@,
                },
            },
        },
    }
}

/// The reason a non-branch `upstream` merge ref withholds a bare push.
pub open spec fn not_a_branch_reason(merge: Seq<char>) -> Seq<char> {
    "skipping push: upstream '"@ + merge + "' is not a branch (use 'git vmr foreach' to push anyway)"@
}

/// The reason a `push.default` this library does not model withholds a
/// bare push.
pub open spec fn unclassifiable_default_reason(value: Seq<char>) -> Seq<char> {
    "skipping push: cannot classify usefulness under push.default '"@ + value
        + "' (use 'git vmr foreach' to push anyway)"@
}

/// The reason a push that would only create an empty branch is withheld.
pub open spec fn empty_branch_reason(name: Seq<char>, remote: Seq<char>) -> Seq<char> {
    "skipping '"@ + name + "': push would only create an empty branch on '"@ + remote
        + "' (use 'git vmr foreach' to push anyway)"@
}

/// The reason a wildcard or matching refspec is withheld.
pub open spec fn pattern_reason(refspec: Seq<char>, kind: Seq<char>) -> Seq<char> {
    "skipping '"@ + refspec + "': cannot classify a "@ + kind
        + " refspec (use 'git vmr foreach' to push anyway)"@
}

/// The destination branch of a bare push on the target remote, mirroring
/// `git push` for the common `push.default` values (`simple` when unset).
pub open spec fn destination_of(e: Evidence) -> Landing {
    let same_name = "refs/heads/"@ + e.branch;
    let upstream_is_target = e.upstream_remote == Some(target_remote_of(e));
    let mode = match e.push_default {
        Some(m) => m,
        None => "simple"@,
    };
    if mode == "current"@ {
        Landing::Branch(e.branch)
    } else if mode == "simple"@ {
        match e.upstream_merge {
            Some(merge) => if upstream_is_target && merge != same_name {
                Landing::Delegate
            } else {
                Landing::Branch(e.branch)
            },
            None => Landing::Branch(e.branch),
        }
    } else if mode == "upstream"@ || mode == "tracking"@ {
        match e.upstream_merge {
            Some(merge) => if upstream_is_target {
                if "refs/heads/"@.is_prefix_of(merge) {
                    Landing::Branch(merge.skip(("refs/heads/"@).len() as int))
                } else {
                    Landing::Skip(not_a_branch_reason(merge))
                }
            } else {
                Landing::Delegate
            },
            None => Landing::Delegate,
        }
    } else {
        Landing::Skip(unclassifiable_default_reason(mode))
    }
}

fn opt_chars(o: &Option<String>) -> (r: Option<Vec<char>>)
    ensures
        r matches Some(v) ==> o.deep_view() == Some(v@),
        r is None ==> o.deep_view() is None,
{
    match o {
        Some(s) => Some(chars_of(s.as_str())),
        None => None,
    }
}

fn concat3(a: &str, b: &Vec<char>, c: &str) -> (r: Vec<char>)
    ensures
        r@ == a@ + b@ + c@,
{
    let mut r = lit(a);
    extend(&mut r, b);
    extend(&mut r, &lit(c));
    r
}

fn concat5(a: &str, b: &Vec<char>, c: &str, d: &Vec<char>, e: &str) -> (r: Vec<char>)
    ensures
        r@ == a@ + b@ + c@ + d@ + e@,
{
    let mut r = lit(a);
    extend(&mut r, b);
    extend(&mut r, &lit(c));
    extend(&mut r, d);
    extend(&mut r, &lit(e));
    r
}

impl PushEvidence {
    /// The remote a bare `git push` targets, in git's precedence order.
    pub fn target_remote(&self) -> (r: String)
        ensures
            r@ == target_remote_of(self@),
    {
        let chosen = match &self.explicit_remote {
            Some(r) => r,
            None => match &self.push_remote {
                Some(r) => r,
                None => match &self.remote_push_default {
                    Some(r) => r,
                    None => match &self.upstream_remote {
                        Some(r) => r,
                        None => {
                            return string_of(&lit("origin"));
                        },
                    },
                },
            },
        };
        string_of(&chars_of(chosen.as_str()))
    }

    /// The destination branch on the target remote, mirroring `git push`
    /// for the common `push.default` values. Configuration the resolver
    /// does not understand skips: an unproven push is withheld, not
    /// guessed at. Setups git itself refuses without touching the network
    /// (mismatched `simple` upstream, missing or triangular `upstream`)
    /// delegate, so git reports them in its own words.
    pub fn destination(&self) -> (d: Destination)
        ensures
            d@ == destination_of(self@),
    {
        let branch = chars_of(self.branch.as_str());
        let mut same_name = lit("refs/heads/");
        extend(&mut same_name, &branch);
        let target = chars_of(self.target_remote().as_str());
        let upstream_is_target = match &self.upstream_remote {
            Some(u) => same(&chars_of(u.as_str()), &target),
            None => false,
        };
        let mode = match &self.push_default {
            Some(m) => chars_of(m.as_str()),
            None => lit("simple"),
        };
        let merge = opt_chars(&self.upstream_merge);
        if same(&mode, &lit("current")) {
            Destination::Branch(string_of(&branch))
        } else if same(&mode, &lit("simple")) {
            match merge {
                Some(m) => if upstream_is_target && !same(&m, &same_name) {
                    Destination::Delegate
                } else {
                    Destination::Branch(string_of(&branch))
                },
                None => Destination::Branch(string_of(&branch)),
            }
        } else if same(&mode, &lit("upstream")) || same(&mode, &lit("tracking")) {
            match merge {
                Some(m) => if upstream_is_target {
                    let heads = lit("refs/heads/");
                    if starts_with(&m, &heads) {
                        Destination::Branch(string_of(&slice_of(&m, heads.len(), m.len())))
                    } else {
                        Destination::Skip(
                            string_of(
                                &concat3(
                                    "skipping push: upstream '",
                                    &m,
                                    "' is not a branch (use 'git vmr foreach' to push anyway)",
                                ),
                            ),
                        )
                    }
                } else {
                    Destination::Delegate
                },
                None => Destination::Delegate,
            }
        } else {
            Destination::Skip(
                string_of(
                    &concat3(
                        "skipping push: cannot classify usefulness under push.default '",
                        &mode,
                        "' (use 'git vmr foreach' to push anyway)",
                    ),
                ),
            )
        }
    }
}

/// A local question a classification needs answered before it can decide.
pub enum PushQuery {
    /// Where `HEAD` points.
    Head,
    /// The value of a config key, if set.
    Config(String),
    /// The full ref name a revision resolves to, if any.
    FullName(String),
    /// Whether a revision resolves locally.
    Resolves(String),
    /// Whether the remote-tracking ref `refs/remotes/<remote>/<branch>`
    /// exists.
    Tracking { remote: String, branch: String },
    /// Whether `tip` carries commits no remote-tracking ref of `remote`
    /// reaches.
    Novel { tip: String, remote: String },
}

/// A query in the model.
pub enum Question {
    Head,
    Config(Seq<char>),
    FullName(Seq<char>),
    Resolves(Seq<char>),
    Tracking(Seq<char>, Seq<char>),
    Novel(Seq<char>, Seq<char>),
}

impl View for PushQuery {
    type V = Question;

    open spec fn view(&self) -> Question {
        match self {
            PushQuery::Head => Question::Head,
            PushQuery::Config(k) => Question::Config(k@),
            PushQuery::FullName(r) => Question::FullName(r@),
            PushQuery::Resolves(r) => Question::Resolves(r@),
            PushQuery::Tracking { remote, branch } => Question::Tracking(remote@, branch@),
            PushQuery::Novel { tip, remote } => Question::Novel(tip@, remote@),
        }
    }
}

/// One step of a classification: the decision, or the next query.
pub enum Step<D> {
    Decided(D),
    Ask(Question),
}

/// One step of a refspec classification.
pub enum RefspecStep {
    Decided(RefspecClass),
    Ask(PushQuery),
}

/// One step of a bare push classification.
pub enum BareStep {
    Decided(BarePush),
    Ask(PushQuery),
}

impl View for RefspecStep {
    type V = Step<Class>;

    open spec fn view(&self) -> Step<Class> {
        match self {
            RefspecStep::Decided(c) => Step::Decided(c@),
            RefspecStep::Ask(q) => Step::Ask(q@),
        }
    }
}

impl View for BareStep {
    type V = Step<Class>;

    open spec fn view(&self) -> Step<Class> {
        match self {
            BareStep::Decided(c) => Step::Decided(c@),
            BareStep::Ask(q) => Step::Ask(q@),
        }
    }
}

/// What is known so far about one explicit refspec: each field is `None`
/// until its query has been answered.
pub struct RefspecFacts {
    /// The answer to the source's full-name query.
    pub full_name: Option<Option<String>>,
    /// Whether the tip resolves locally.
    pub resolves: Option<bool>,
    /// Whether the destination's remote-tracking ref exists.
    pub tracking: Option<bool>,
    /// Whether the tip has commits new to the remote.
    pub novel: Option<bool>,
}

/// The refspec facts in the model.
pub struct Known {
    pub full_name: Option<Option<Seq<char>>>,
    pub resolves: Option<bool>,
    pub tracking: Option<bool>,
    pub novel: Option<bool>,
}

impl View for RefspecFacts {
    type V = Known;

    open spec fn view(&self) -> Known {
        Known {
            full_name: match self.full_name {
                Some(n) => Some(n.deep_view()),
                None => None,
            },
            resolves: self.resolves,
            tracking: self.tracking,
            novel: self.novel,
        }
    }
}

impl RefspecFacts {
    /// Nothing known yet.
    pub fn unknown() -> (f: RefspecFacts)
        ensures
            f@ == (Known { full_name: None, resolves: None, tracking: None, novel: None }),
    {
        RefspecFacts { full_name: None, resolves: None, tracking: None, novel: None }
    }
}

/// `s` without one leading `+` (a forced refspec).
pub open spec fn strip_plus(s: Seq<char>) -> Seq<char> {
    if s.len() > 0 && s[0] == '+' {
        s.drop_first()
    } else {
        s
    }
}

/// `s` with every leading repetition of `p` removed (`trim_start_matches`).
pub open spec fn strip_repeated(s: Seq<char>, p: Seq<char>) -> Seq<char>
    decreases s.len(),
{
    if p.len() > 0 && p.is_prefix_of(s) {
        strip_repeated(s.skip(p.len() as int), p)
    } else {
        s
    }
}

/// The usefulness check of a branch refspec: push when the destination
/// exists on the remote or the tip has novel commits, else withhold.
pub open spec fn usefulness(
    remote: Seq<char>,
    refspec: Seq<char>,
    destination_branch: Seq<char>,
    tip: Seq<char>,
    f: Known,
) -> Step<Class> {
    match f.tracking {
        None => Step::Ask(Question::Tracking(remote, destination_branch)),
        Some(true) => Step::Decided(Class::Attempt),
        Some(false) => match f.novel {
            None => Step::Ask(Question::Novel(tip, remote)),
            Some(true) => Step::Decided(Class::Attempt),
            Some(false) => Step::Decided(Class::Withhold(empty_branch_reason(refspec, remote))),
        },
    }
}

/// The classification of a refspec with source `source` and optional
/// destination, once it is neither a delete nor a pattern.
pub open spec fn source_step(
    remote: Seq<char>,
    refspec: Seq<char>,
    source: Seq<char>,
    destination: Option<Seq<char>>,
    f: Known,
) -> Step<Class> {
    if (destination matches Some(d) && "refs/"@.is_prefix_of(d) && !"refs/heads/"@.is_prefix_of(
        d,
    )) {
        // An explicit non-branch destination pushes on intent.
        Step::Decided(Class::Attempt)
    } else {
        match f.full_name {
            None => Step::Ask(Question::FullName(source)),
            Some(full) => {
                if (full matches Some(n) && "refs/tags/"@.is_prefix_of(n)) {
                    Step::Decided(Class::Attempt)
                } else if (full matches Some(n) && destination is None
                    && !"refs/heads/"@.is_prefix_of(n)) {
                    Step::Decided(Class::Attempt)
                } else if full is None && destination is None {
                    Step::Decided(Class::Attempt)
                } else {
                    let destination_branch = match destination {
                        Some(d) => strip_repeated(d, "refs/heads/"@),
                        None => full->0.skip(("refs/heads/"@).len() as int),
                    };
                    let tip = match full {
                        Some(n) => n,
                        None => source,
                    };
                    if full is None {
                        match f.resolves {
                            None => Step::Ask(Question::Resolves(tip)),
                            Some(false) => Step::Decided(Class::Attempt),
                            Some(true) => usefulness(remote, refspec, destination_branch, tip, f),
                        }
                    } else {
                        usefulness(remote, refspec, destination_branch, tip, f)
                    }
                }
            },
        }
    }
}

/// The next step of classifying one explicit refspec pushed to `remote`,
/// given the facts gathered so far. Branch refspecs get the usefulness
/// predicate; deletes and tags push on explicit intent; wildcards and the
/// matching refspec skip as unclassifiable; anything git must resolve
/// itself (unknown sources, non-branch destinations) pushes, so git
/// reports it in its own words.
pub open spec fn refspec_step(remote: Seq<char>, refspec: Seq<char>, f: Known) -> Step<Class> {
    let spec = strip_plus(refspec);
    if spec.contains('*') || spec == ":"@ {
        let kind = if spec == ":"@ {
            "matching"@
        } else {
            "wildcard"@
        };
        Step::Decided(Class::Withhold(pattern_reason(refspec, kind)))
    } else {
        match find_from(spec, ':', 0) {
            Some(k) => if k == 0 {
                // Delete refspecs always push.
                Step::Decided(Class::Attempt)
            } else {
                source_step(remote, refspec, spec.take(k), Some(spec.skip(k + 1)), f)
            },
            None => source_step(remote, refspec, spec, None, f),
        }
    }
}

fn strip_repeated_exec(s: &Vec<char>, p: &Vec<char>) -> (r: Vec<char>)
    ensures
        r@ == strip_repeated(s@, p@),
{
    let mut start: usize = 0;
    assert(s@.skip(0) =~= s@);
    while p.len() > 0 && is_at(s, start, p)
        invariant
            start <= s.len(),
            strip_repeated(s@, p@) == strip_repeated(s@.skip(start as int), p@),
        decreases s.len() - start,
    {
        proof {
            let rest = s@.skip(start as int);
            assert(rest.subrange(0, p@.len() as int) =~= s@.subrange(
                start as int,
                start + p@.len(),
            ));
            assert(p@.is_prefix_of(rest));
            assert(rest.skip(p@.len() as int) =~= s@.skip(start + p@.len()));
        }
        start = start + p.len();
    }
    proof {
        let rest = s@.skip(start as int);
        if p@.len() > 0 && p@.is_prefix_of(rest) {
            assert(rest.subrange(0, p@.len() as int) =~= s@.subrange(
                start as int,
                start + p@.len(),
            ));
        }
    }
    let r = slice_of(s, start, s.len());
    assert(r@ =~= s@.skip(start as int));
    r
}

fn usefulness_exec(
    remote: &Vec<char>,
    refspec: &Vec<char>,
    destination_branch: &Vec<char>,
    tip: &Vec<char>,
    f: &RefspecFacts,
) -> (r: RefspecStep)
    ensures
        r@ == usefulness(remote@, refspec@, destination_branch@, tip@, f@),
{
    match f.tracking {
        None => RefspecStep::Ask(
            PushQuery::Tracking {
                remote: string_of(remote),
                branch: string_of(destination_branch),
            },
        ),
        Some(true) => RefspecStep::Decided(RefspecClass::Push),
        Some(false) => match f.novel {
            None => RefspecStep::Ask(
                PushQuery::Novel { tip: string_of(tip), remote: string_of(remote) },
            ),
            Some(true) => RefspecStep::Decided(RefspecClass::Push),
            Some(false) => RefspecStep::Decided(
                RefspecClass::Skip(
                    string_of(
                        &concat5(
                            "skipping '",
                            refspec,
                            "': push would only create an empty branch on '",
                            remote,
                            "' (use 'git vmr foreach' to push anyway)",
                        ),
                    ),
                ),
            ),
        },
    }
}

fn source_step_exec(
    remote: &Vec<char>,
    refspec: &Vec<char>,
    source: &Vec<char>,
    destination: &Option<Vec<char>>,
    f: &RefspecFacts,
) -> (r: RefspecStep)
    ensures
        r@ == source_step(
            remote@,
            refspec@,
            source@,
            match destination {
                Some(d) => Some(d@),
                None => None,
            },
            f@,
        ),
{
    let heads = lit("refs/heads/");
    let refs = lit("refs/");
    let tags = lit("refs/tags/");
    if let Some(d) = destination {
        if starts_with(d, &refs) && !starts_with(d, &heads) {
            return RefspecStep::Decided(RefspecClass::Push);
        }
    }
    match &f.full_name {
        None => RefspecStep::Ask(PushQuery::FullName(string_of(source))),
        Some(full) => {
            let full = opt_chars(full);
            if let Some(n) = &full {
                if starts_with(n, &tags) {
                    return RefspecStep::Decided(RefspecClass::Push);
                }
                if destination.is_none() && !starts_with(n, &heads) {
                    return RefspecStep::Decided(RefspecClass::Push);
                }
            } else if destination.is_none() {
                return RefspecStep::Decided(RefspecClass::Push);
            }
            let destination_branch = match destination {
                Some(d) => strip_repeated_exec(d, &heads),
                None => match &full {
                    Some(n) => slice_of(n, heads.len(), n.len()),
                    None => {
                        return RefspecStep::Decided(RefspecClass::Push);
                    },
                },
            };
            let tip = match &full {
                Some(n) => crate::text::copy_chars(n),
                None => crate::text::copy_chars(source),
            };
            if full.is_none() {
                match f.resolves {
                    None => RefspecStep::Ask(PushQuery::Resolves(string_of(&tip))),
                    Some(false) => RefspecStep::Decided(RefspecClass::Push),
                    Some(true) => usefulness_exec(remote, refspec, &destination_branch, &tip, f),
                }
            } else {
                usefulness_exec(remote, refspec, &destination_branch, &tip, f)
            }
        },
    }
}

/// The next step of classifying one explicit refspec pushed to `remote`.
pub fn classify_refspec_step(remote: &str, refspec: &str, facts: &RefspecFacts) -> (r:
    RefspecStep)
    ensures
        r@ == refspec_step(remote@, refspec@, facts@),
{
    let remote_v = chars_of(remote);
    let refspec_v = chars_of(refspec);
    let spec = if refspec_v.len() > 0 && refspec_v[0] == '+' {
        slice_of(&refspec_v, 1, refspec_v.len())
    } else {
        slice_of(&refspec_v, 0, refspec_v.len())
    };
    proof {
        assert(spec@ =~= strip_plus(refspec@));
    }
    let colon = lit(":");
    let is_matching = same(&spec, &colon);
    if has_char(&spec, '*') || is_matching {
        let kind = if is_matching {
            lit("matching")
        } else {
            lit("wildcard")
        };
        return RefspecStep::Decided(
            RefspecClass::Skip(
                string_of(
                    &concat5(
                        "skipping '",
                        &refspec_v,
                        "': cannot classify a ",
                        &kind,
                        " refspec (use 'git vmr foreach' to push anyway)",
                    ),
                ),
            ),
        );
    }
    match find_char(&spec, ':', 0) {
        Some(k) => {
            if k == 0 {
                RefspecStep::Decided(RefspecClass::Push)
            } else {
                proof {
                    lemma_find_from(spec@, ':', 0);
                }
                let source = slice_of(&spec, 0, k);
                let destination = slice_of(&spec, k + 1, spec.len());
                assert(source@ =~= spec@.take(k as int));
                assert(destination@ =~= spec@.skip(k + 1));
                source_step_exec(&remote_v, &refspec_v, &source, &Some(destination), facts)
            }
        },
        None => source_step_exec(&remote_v, &refspec_v, &spec, &None, facts),
    }
}

/// What is known so far about a bare push: each field is `None` until its
/// query has been answered; a config field holds `Some(None)` once the key
/// is known to be unset.
pub struct BareFacts {
    pub head: Option<Head>,
    pub upstream_remote: Option<Option<String>>,
    pub upstream_merge: Option<Option<String>>,
    pub push_remote: Option<Option<String>>,
    pub remote_push_default: Option<Option<String>>,
    pub push_default: Option<Option<String>>,
    pub tracking: Option<bool>,
    pub novel: Option<bool>,
}

/// The bare push facts in the model.
pub struct BareKnown {
    pub head: Option<Head>,
    pub upstream_remote: Option<Option<Seq<char>>>,
    pub upstream_merge: Option<Option<Seq<char>>>,
    pub push_remote: Option<Option<Seq<char>>>,
    pub remote_push_default: Option<Option<Seq<char>>>,
    pub push_default: Option<Option<Seq<char>>>,
    pub tracking: Option<bool>,
    pub novel: Option<bool>,
}

pub open spec fn known_text(o: Option<Option<String>>) -> Option<Option<Seq<char>>> {
    match o {
        Some(v) => Some(v.deep_view()),
        None => None,
    }
}

impl View for BareFacts {
    type V = BareKnown;

    open spec fn view(&self) -> BareKnown {
        BareKnown {
            head: self.head,
            upstream_remote: known_text(self.upstream_remote),
            upstream_merge: known_text(self.upstream_merge),
            push_remote: known_text(self.push_remote),
            remote_push_default: known_text(self.remote_push_default),
            push_default: known_text(self.push_default),
            tracking: self.tracking,
            novel: self.novel,
        }
    }
}

impl BareFacts {
    /// Nothing known yet.
    pub fn unknown() -> (f: BareFacts)
        ensures
            f@ == (BareKnown {
                head: None,
                upstream_remote: None,
                upstream_merge: None,
                push_remote: None,
                remote_push_default: None,
                push_default: None,
                tracking: None,
                novel: None,
            }),
    {
        BareFacts {
            head: None,
            upstream_remote: None,
            upstream_merge: None,
            push_remote: None,
            remote_push_default: None,
            push_default: None,
            tracking: None,
            novel: None,
        }
    }
}

/// The config key `branch.<branch>.<name>`.
pub open spec fn branch_key(branch: Seq<char>, name: Seq<char>) -> Seq<char> {
    "branch."@ + branch + "."@ + name
}

/// The next step of classifying a bare push from local evidence alone:
/// delegate when the destination already exists on the target remote or
/// the tip has novel commits, skip when the push would only create an
/// empty branch, and err toward skipping when config resolution cannot
/// prove usefulness. Detached and unborn heads delegate. An explicit
/// remote argument overrides config resolution of the target remote.
pub open spec fn bare_step(explicit_remote: Option<Seq<char>>, f: BareKnown) -> Step<Class> {
    match f.head {
        None => Step::Ask(Question::Head),
        Some(Head::Detached(_)) => Step::Decided(Class::Attempt),
        Some(Head::Unborn(_)) => Step::Decided(Class::Attempt),
        Some(Head::Branch(b)) => {
            let b = b@;
            if f.upstream_remote is None {
                Step::Ask(Question::Config(branch_key(b, "remote"@)))
            } else if f.upstream_merge is None {
                Step::Ask(Question::Config(branch_key(b, "merge"@)))
            } else if f.push_remote is None {
                Step::Ask(Question::Config(branch_key(b, "pushRemote"@)))
            } else if f.remote_push_default is None {
                Step::Ask(Question::Config("remote.pushDefault"@))
            } else if f.push_default is None {
                Step::Ask(Question::Config("push.default"@))
            } else {
                let e = Evidence {
                    branch: b,
                    explicit_remote,
                    upstream_remote: f.upstream_remote->0,
                    upstream_merge: f.upstream_merge->0,
                    push_remote: f.push_remote->0,
                    remote_push_default: f.remote_push_default->0,
                    push_default: f.push_default->0,
                };
                let remote = target_remote_of(e);
                match destination_of(e) {
                    Landing::Delegate => Step::Decided(Class::Attempt),
                    Landing::Skip(r) => Step::Decided(Class::Withhold(r)),
                    Landing::Branch(d) => match f.tracking {
                        None => Step::Ask(Question::Tracking(remote, d)),
                        Some(true) => Step::Decided(Class::Attempt),
                        Some(false) => match f.novel {
                            None => Step::Ask(Question::Novel("refs/heads/"@ + b, remote)),
                            Some(true) => Step::Decided(Class::Attempt),
                            Some(false) => Step::Decided(
                                Class::Withhold(empty_branch_reason(b, remote)),
                            ),
                        },
                    },
                }
            }
        },
    }
}

fn config_key(branch: &Vec<char>, name: &str) -> (r: String)
    ensures
        r@ == branch_key(branch@, name@),
{
    let mut k = lit("branch.");
    extend(&mut k, branch);
    extend(&mut k, &lit("."));
    extend(&mut k, &lit(name));
    string_of(&k)
}

fn copy_opt(o: &Option<String>) -> (r: Option<String>)
    ensures
        r.deep_view() == o.deep_view(),
{
    match o {
        Some(s) => Some(string_of(&chars_of(s.as_str()))),
        None => None,
    }
}

/// The next step of classifying a bare push.
pub fn classify_bare_push_step(explicit_remote: Option<&str>, facts: &BareFacts) -> (r: BareStep)
    ensures
        r@ == bare_step(
            match explicit_remote {
                Some(s) => Some(s@),
                None => None,
            },
            facts@,
        ),
{
    let branch = match &facts.head {
        None => {
            return BareStep::Ask(PushQuery::Head);
        },
        Some(Head::Detached(_)) => {
            return BareStep::Decided(BarePush::Delegate);
        },
        Some(Head::Unborn(_)) => {
            return BareStep::Decided(BarePush::Delegate);
        },
        Some(Head::Branch(b)) => chars_of(b.as_str()),
    };
    let (upstream_remote, upstream_merge, push_remote, remote_push_default, push_default) = match (
        &facts.upstream_remote,
        &facts.upstream_merge,
        &facts.push_remote,
        &facts.remote_push_default,
        &facts.push_default,
    ) {
        (None, _, _, _, _) => {
            return BareStep::Ask(PushQuery::Config(config_key(&branch, "remote")));
        },
        (_, None, _, _, _) => {
            return BareStep::Ask(PushQuery::Config(config_key(&branch, "merge")));
        },
        (_, _, None, _, _) => {
            return BareStep::Ask(PushQuery::Config(config_key(&branch, "pushRemote")));
        },
        (_, _, _, None, _) => {
            return BareStep::Ask(PushQuery::Config(string_of(&lit("remote.pushDefault"))));
        },
        (_, _, _, _, None) => {
            return BareStep::Ask(PushQuery::Config(string_of(&lit("push.default"))));
        },
        (Some(a), Some(b), Some(c), Some(d), Some(e)) => (a, b, c, d, e),
    };
    let evidence = PushEvidence {
        branch: string_of(&branch),
        explicit_remote: match explicit_remote {
            Some(s) => Some(string_of(&chars_of(s))),
            None => None,
        },
        upstream_remote: copy_opt(upstream_remote),
        upstream_merge: copy_opt(upstream_merge),
        push_remote: copy_opt(push_remote),
        remote_push_default: copy_opt(remote_push_default),
        push_default: copy_opt(push_default),
    };
    let remote = evidence.target_remote();
    match evidence.destination() {
        Destination::Delegate => BareStep::Decided(BarePush::Delegate),
        Destination::Skip(reason) => BareStep::Decided(BarePush::Skip(reason)),
        Destination::Branch(d) => match facts.tracking {
            None => BareStep::Ask(PushQuery::Tracking { remote, branch: d }),
            Some(true) => BareStep::Decided(BarePush::Delegate),
            Some(false) => match facts.novel {
                None => {
                    let mut tip = lit("refs/heads/");
                    extend(&mut tip, &branch);
                    BareStep::Ask(PushQuery::Novel { tip: string_of(&tip), remote })
                },
                Some(true) => BareStep::Decided(BarePush::Delegate),
                Some(false) => BareStep::Decided(
                    BarePush::Skip(
                        string_of(
                            &concat5(
                                "skipping '",
                                &branch,
                                "': push would only create an empty branch on '",
                                &chars_of(remote.as_str()),
                                "' (use 'git vmr foreach' to push anyway)",
                            ),
                        ),
                    ),
                ),
            },
        },
    }
}

/// `g` knows at least what `f` knows, and agrees with it.
pub open spec fn refines(f: Known, g: Known) -> bool {
    &&& f.full_name is Some ==> g.full_name == f.full_name
    &&& f.resolves is Some ==> g.resolves == f.resolves
    &&& f.tracking is Some ==> g.tracking == f.tracking
    &&& f.novel is Some ==> g.novel == f.novel
}

/// Every refspec fact is known.
pub open spec fn complete(f: Known) -> bool {
    f.full_name is Some && f.resolves is Some && f.tracking is Some && f.novel is Some
}

/// A refspec classification only ever asks what it does not know yet:
/// each query names a fact that is still unknown, so answering it adds
/// knowledge, and the loop that answers queries ends after at most four.
pub proof fn refspec_asks_only_unknown_facts(remote: Seq<char>, refspec: Seq<char>, f: Known)
    ensures
        match refspec_step(remote, refspec, f) {
            Step::Ask(Question::FullName(_)) => f.full_name is None,
            Step::Ask(Question::Resolves(_)) => f.resolves is None,
            Step::Ask(Question::Tracking(_, _)) => f.tracking is None,
            Step::Ask(Question::Novel(_, _)) => f.novel is None,
            Step::Ask(_) => false,
            Step::Decided(_) => true,
        },
{
}

/// With every fact known, a refspec classification decides.
pub proof fn refspec_complete_facts_decide(remote: Seq<char>, refspec: Seq<char>, f: Known)
    requires
        complete(f),
    ensures
        refspec_step(remote, refspec, f) is Decided,
{
}

/// A refspec decision is final: learning more never changes it, so the
/// queries it did not ask could not have mattered.
pub proof fn refspec_decision_is_final(
    remote: Seq<char>,
    refspec: Seq<char>,
    f: Known,
    g: Known,
)
    requires
        refspec_step(remote, refspec, f) is Decided,
        refines(f, g),
    ensures
        refspec_step(remote, refspec, g) == refspec_step(remote, refspec, f),
{
}

/// Deletes, wildcards, the matching refspec and explicit non-branch
/// destinations classify without any query.
pub proof fn refspec_intent_needs_no_query(remote: Seq<char>, refspec: Seq<char>, f: Known)
    requires
        ({
            let spec = strip_plus(refspec);
            ||| spec.contains('*')
            ||| spec == ":"@
            ||| (spec.len() > 0 && spec[0] == ':')
            ||| (find_from(spec, ':', 0) matches Some(k) && k > 0 && "refs/"@.is_prefix_of(
                spec.skip(k + 1),
            ) && !"refs/heads/"@.is_prefix_of(spec.skip(k + 1)))
        }),
    ensures
        refspec_step(remote, refspec, f) is Decided,
{
    let spec = strip_plus(refspec);
    if spec.len() > 0 && spec[0] == ':' && !spec.contains('*') && spec != ":"@ {
        assert(find_from(spec, ':', 0) == Some(0int));
    }
}

/// The number of refspec facts not known yet.
pub open spec fn unknown_count(f: Known) -> nat {
    (if f.full_name is None { 1nat } else { 0nat }) + (if f.resolves is None { 1nat } else { 0nat }) + (
    if f.tracking is None {
        1nat
    } else {
        0nat
    }) + (if f.novel is None { 1nat } else { 0nat })
}

/// Nothing known about a refspec.
pub open spec fn nothing_known() -> Known {
    Known { full_name: None, resolves: None, tracking: None, novel: None }
}

/// The reply git gives to a query about a refspec whose facts are `g`.
pub open spec fn reply_from(g: Known, q: Question) -> Reply {
    match q {
        Question::FullName(_) => Reply::Text(g.full_name.unwrap_or(None)),
        Question::Resolves(_) => Reply::Flag(g.resolves.unwrap_or(false)),
        Question::Tracking(_, _) => Reply::Flag(g.tracking.unwrap_or(false)),
        Question::Novel(_, _) => Reply::Flag(g.novel.unwrap_or(false)),
        _ => Reply::Flag(false),
    }
}

/// The query loop of a refspec classification from facts `f`, each query
/// answered as the facts `g` say, for at most `fuel` queries: the step it
/// ends on.
pub open spec fn refspec_run(remote: Seq<char>, refspec: Seq<char>, g: Known, f: Known, fuel: nat) -> Step<
    Class,
>
    decreases fuel,
{
    match refspec_step(remote, refspec, f) {
        Step::Ask(q) => if fuel > 0 {
            refspec_run(remote, refspec, g, learned(f, q, reply_from(g, q)), (fuel - 1) as nat)
        } else {
            Step::Ask(q)
        },
        Step::Decided(c) => Step::Decided(c),
    }
}

proof fn lemma_refspec_run(remote: Seq<char>, refspec: Seq<char>, g: Known, f: Known, fuel: nat)
    requires
        complete(g),
        refines(f, g),
        unknown_count(f) <= fuel,
    ensures
        refspec_run(remote, refspec, g, f, fuel) == refspec_step(remote, refspec, g),
    decreases fuel,
{
    refspec_asks_only_unknown_facts(remote, refspec, f);
    match refspec_step(remote, refspec, f) {
        Step::Ask(q) => {
            let h = learned(f, q, reply_from(g, q));
            assert(refines(h, g));
            assert(unknown_count(h) + 1 == unknown_count(f));
            lemma_refspec_run(remote, refspec, g, h, (fuel - 1) as nat);
        },
        Step::Decided(_) => {
            refspec_decision_is_final(remote, refspec, f, g);
        },
    }
}

/// The query loop of a refspec classification, started knowing nothing
/// and answered truthfully, decides within four queries, and decides as
/// the classification of the complete facts does: the queries it asks are
/// all it needs.
pub proof fn refspec_loop_decides_as_the_facts(remote: Seq<char>, refspec: Seq<char>, g: Known)
    requires
        complete(g),
    ensures
        refspec_run(remote, refspec, g, nothing_known(), 4) == refspec_step(remote, refspec, g),
        refspec_step(remote, refspec, g) is Decided,
{
    lemma_refspec_run(remote, refspec, g, nothing_known(), 4);
    refspec_complete_facts_decide(remote, refspec, g);
}

/// `g` knows at least what `f` knows about a bare push, and agrees.
pub open spec fn bare_refines(f: BareKnown, g: BareKnown) -> bool {
    &&& f.head is Some ==> g.head == f.head
    &&& f.upstream_remote is Some ==> g.upstream_remote == f.upstream_remote
    &&& f.upstream_merge is Some ==> g.upstream_merge == f.upstream_merge
    &&& f.push_remote is Some ==> g.push_remote == f.push_remote
    &&& f.remote_push_default is Some ==> g.remote_push_default == f.remote_push_default
    &&& f.push_default is Some ==> g.push_default == f.push_default
    &&& f.tracking is Some ==> g.tracking == f.tracking
    &&& f.novel is Some ==> g.novel == f.novel
}

/// Every bare push fact is known.
pub open spec fn bare_complete(f: BareKnown) -> bool {
    &&& f.head is Some
    &&& f.upstream_remote is Some
    &&& f.upstream_merge is Some
    &&& f.push_remote is Some
    &&& f.remote_push_default is Some
    &&& f.push_default is Some
    &&& f.tracking is Some
    &&& f.novel is Some
}

/// A bare push classification only asks what it does not know yet: the
/// head, then each push-related config key once, then the two ref queries.
pub proof fn bare_asks_only_unknown_facts(explicit_remote: Option<Seq<char>>, f: BareKnown)
    ensures
        match bare_step(explicit_remote, f) {
            Step::Ask(Question::Head) => f.head is None,
            Step::Ask(Question::Config(_)) => f.head is Some && (f.upstream_remote is None
                || f.upstream_merge is None || f.push_remote is None || f.remote_push_default is None
                || f.push_default is None),
            Step::Ask(Question::Tracking(_, _)) => f.tracking is None,
            Step::Ask(Question::Novel(_, _)) => f.novel is None,
            Step::Ask(_) => false,
            Step::Decided(_) => true,
        },
{
}

/// With every fact known, a bare push classification decides.
pub proof fn bare_complete_facts_decide(explicit_remote: Option<Seq<char>>, f: BareKnown)
    requires
        bare_complete(f),
    ensures
        bare_step(explicit_remote, f) is Decided,
{
}

/// A bare push decision is final: learning more never changes it.
pub proof fn bare_decision_is_final(explicit_remote: Option<Seq<char>>, f: BareKnown, g: BareKnown)
    requires
        bare_step(explicit_remote, f) is Decided,
        bare_refines(f, g),
    ensures
        bare_step(explicit_remote, g) == bare_step(explicit_remote, f),
{
}

/// The number of bare push facts not known yet.
pub open spec fn bare_unknown_count(f: BareKnown) -> nat {
    (if f.head is None { 1nat } else { 0nat }) + (if f.upstream_remote is None { 1nat } else { 0nat })
        + (if f.upstream_merge is None { 1nat } else { 0nat }) + (if f.push_remote is None {
        1nat
    } else {
        0nat
    }) + (if f.remote_push_default is None { 1nat } else { 0nat }) + (if f.push_default is None {
        1nat
    } else {
        0nat
    }) + (if f.tracking is None { 1nat } else { 0nat }) + (if f.novel is None { 1nat } else { 0nat })
}

/// Nothing known about a bare push.
pub open spec fn nothing_known_bare() -> BareKnown {
    BareKnown {
        head: None,
        upstream_remote: None,
        upstream_merge: None,
        push_remote: None,
        remote_push_default: None,
        push_default: None,
        tracking: None,
        novel: None,
    }
}

/// The reply git gives to a query about a bare push whose facts are `g`,
/// asked while the facts `f` are known: a config query names the key of
/// the first config fact `f` lacks (`bare_step` asks them in that order).
pub open spec fn bare_reply_from(g: BareKnown, f: BareKnown, q: Question) -> Reply {
    match q {
        Question::Head => match g.head {
            Some(h) => Reply::Head(h),
            None => Reply::Flag(false),
        },
        Question::Config(_) => Reply::Text(
            if f.upstream_remote is None {
                g.upstream_remote.unwrap_or(None)
            } else if f.upstream_merge is None {
                g.upstream_merge.unwrap_or(None)
            } else if f.push_remote is None {
                g.push_remote.unwrap_or(None)
            } else if f.remote_push_default is None {
                g.remote_push_default.unwrap_or(None)
            } else {
                g.push_default.unwrap_or(None)
            },
        ),
        Question::Tracking(_, _) => Reply::Flag(g.tracking.unwrap_or(false)),
        Question::Novel(_, _) => Reply::Flag(g.novel.unwrap_or(false)),
        _ => Reply::Flag(false),
    }
}

/// The query loop of a bare push classification from facts `f`, each
/// query answered as the facts `g` say, for at most `fuel` queries: the
/// step it ends on.
pub open spec fn bare_run(explicit_remote: Option<Seq<char>>, g: BareKnown, f: BareKnown, fuel: nat) -> Step<
    Class,
>
    decreases fuel,
{
    match bare_step(explicit_remote, f) {
        Step::Ask(q) => if fuel > 0 {
            bare_run(explicit_remote, g, bare_learned(f, q, bare_reply_from(g, f, q)), (fuel - 1) as nat)
        } else {
            Step::Ask(q)
        },
        Step::Decided(c) => Step::Decided(c),
    }
}

proof fn lemma_bare_run(explicit_remote: Option<Seq<char>>, g: BareKnown, f: BareKnown, fuel: nat)
    requires
        bare_complete(g),
        bare_refines(f, g),
        bare_unknown_count(f) <= fuel,
    ensures
        bare_run(explicit_remote, g, f, fuel) == bare_step(explicit_remote, g),
    decreases fuel,
{
    bare_asks_only_unknown_facts(explicit_remote, f);
    match bare_step(explicit_remote, f) {
        Step::Ask(q) => {
            let h = bare_learned(f, q, bare_reply_from(g, f, q));
            assert(bare_refines(h, g));
            assert(bare_unknown_count(h) + 1 == bare_unknown_count(f));
            lemma_bare_run(explicit_remote, g, h, (fuel - 1) as nat);
        },
        Step::Decided(_) => {
            bare_decision_is_final(explicit_remote, f, g);
        },
    }
}

/// The query loop of a bare push classification, started knowing nothing
/// and answered truthfully, decides within eight queries, and decides as
/// the classification of the complete facts does.
pub proof fn bare_loop_decides_as_the_facts(explicit_remote: Option<Seq<char>>, g: BareKnown)
    requires
        bare_complete(g),
    ensures
        bare_run(explicit_remote, g, nothing_known_bare(), 8) == bare_step(explicit_remote, g),
        bare_step(explicit_remote, g) is Decided,
{
    lemma_bare_run(explicit_remote, g, nothing_known_bare(), 8);
    bare_complete_facts_decide(explicit_remote, g);
}

/// A detached or unborn head delegates before any config is read.
pub proof fn bare_non_branch_head_delegates(explicit_remote: Option<Seq<char>>, f: BareKnown)
    requires
        f.head matches Some(h) && !(h is Branch),
    ensures
        bare_step(explicit_remote, f) == Step::<Class>::Decided(Class::Attempt),
{
}

/// The arguments of the git invocation that answers a query (`HEAD` is
/// resolved by its own queries).
pub open spec fn query_args(q: Question) -> Seq<Seq<char>> {
    match q {
        Question::Head => seq!["symbolic-ref"@, "--quiet"@, "--short"@, "HEAD"@],
        Question::Config(key) => seq!["config"@, "--get"@, key],
        Question::FullName(rev) => seq!["rev-parse"@, "--symbolic-full-name"@, rev],
        Question::Resolves(rev) => seq!["rev-parse"@, "--verify"@, "--quiet"@, rev],
        Question::Tracking(remote, branch) => seq![
            "show-ref"@,
            "--verify"@,
            "--quiet"@,
            tracking_ref(remote, branch),
        ],
        Question::Novel(tip, remote) => seq![
            "rev-list"@,
            "-1"@,
            tip,
            "--not"@,
            "--remotes="@ + remote,
        ],
    }
}

/// The remote-tracking ref of `branch` on `remote`.
pub open spec fn tracking_ref(remote: Seq<char>, branch: Seq<char>) -> Seq<char> {
    "refs/remotes/"@ + remote + "/"@ + branch
}

fn cat(a: &str, b: &str) -> (r: String)
    ensures
        r@ == a@ + b@,
{
    let mut v = lit(a);
    extend(&mut v, &chars_of(b));
    string_of(&v)
}

/// The arguments of the git invocation that answers a query.
pub fn query_invocation(q: &PushQuery) -> (r: Vec<String>)
    ensures
        views(r@) == query_args(q@),
{
    let r = match q {
        PushQuery::Head => args_of(&vec!["symbolic-ref", "--quiet", "--short", "HEAD"]),
        PushQuery::Config(key) => args_of(&vec!["config", "--get", key.as_str()]),
        PushQuery::FullName(rev) => args_of(&vec!["rev-parse", "--symbolic-full-name", rev.as_str()]),
        PushQuery::Resolves(rev) => args_of(&vec!["rev-parse", "--verify", "--quiet", rev.as_str()]),
        PushQuery::Tracking { remote, branch } => {
            let mut rf = lit("refs/remotes/");
            extend(&mut rf, &chars_of(remote.as_str()));
            extend(&mut rf, &lit("/"));
            extend(&mut rf, &chars_of(branch.as_str()));
            let rf = string_of(&rf);
            args_of(&vec!["show-ref", "--verify", "--quiet", rf.as_str()])
        },
        PushQuery::Novel { tip, remote } => {
            let rs = cat("--remotes=", remote.as_str());
            args_of(&vec!["rev-list", "-1", tip.as_str(), "--not", rs.as_str()])
        },
    };
    assert(views(r@) =~= query_args(q@));
    r
}

/// An answer to a query.
pub enum Answer {
    Head(Head),
    Text(Option<String>),
    Flag(bool),
}

/// An answer in the model.
pub enum Reply {
    Head(Head),
    Text(Option<Seq<char>>),
    Flag(bool),
}

impl View for Answer {
    type V = Reply;

    open spec fn view(&self) -> Reply {
        match self {
            Answer::Head(h) => Reply::Head(*h),
            Answer::Text(t) => Reply::Text(t.deep_view()),
            Answer::Flag(b) => Reply::Flag(*b),
        }
    }
}

/// What the output of a query's invocation in the repository at `path`
/// answers (`HEAD` aside): a config value when set (exit 0, trimmed), none
/// when unset (exit 1); a full ref name unless the revision does not
/// resolve or names no ref; whether a revision resolves; whether a
/// remote-tracking ref exists (exit 0 or 1); whether a revision list is
/// non-empty. Other exits fail with the error naming the query.
pub open spec fn reply_of(q: Question, path: Seq<char>, o: GitOutput) -> Result<Reply, Seq<char>> {
    match q {
        Question::Head => Err(Seq::empty()),
        Question::Config(key) => if o.code == Some(0i32) {
            Ok(Reply::Text(Some(trim(o.stdout@))))
        } else if o.code == Some(1i32) {
            Ok(Reply::Text(None))
        } else {
            Err("fatal: failed to read config '"@ + key + "' in '"@ + path + "': "@ + trim(o.stderr@))
        },
        Question::FullName(_) => if !o.succeeded() || trim(o.stdout@).len() == 0 {
            Ok(Reply::Text(None))
        } else {
            Ok(Reply::Text(Some(trim(o.stdout@))))
        },
        Question::Resolves(_) => Ok(Reply::Flag(o.succeeded())),
        Question::Tracking(remote, branch) => if o.code == Some(0i32) {
            Ok(Reply::Flag(true))
        } else if o.code == Some(1i32) {
            Ok(Reply::Flag(false))
        } else {
            Err("fatal: failed to check '"@ + tracking_ref(remote, branch) + "' in '"@ + path
                + "': "@ + trim(o.stderr@))
        },
        Question::Novel(_, _) => if o.succeeded() {
            Ok(Reply::Flag(trim(o.stdout@).len() > 0))
        } else {
            Err(stdout_failure(query_args(q), path, o.stderr@))
        },
    }
}

fn quoted_error(a: &str, b: &str, c: &str, d: &str, output: &GitOutput) -> (r: String)
    ensures
        r@ == a@ + b@ + c@ + d@ + "': "@ + trim(output.stderr@),
{
    let mut m = lit(a);
    extend(&mut m, &chars_of(b));
    extend(&mut m, &lit(c));
    extend(&mut m, &chars_of(d));
    extend(&mut m, &lit("': "));
    extend(&mut m, &stderr(output));
    string_of(&m)
}

/// What the output of a query's invocation answers (`HEAD` is answered by
/// resolving it).
pub fn answer(q: &PushQuery, repo_path: &str, output: &GitOutput) -> (r: Result<Answer, String>)
    requires
        !(q is Head),
    ensures
        match reply_of(q@, repo_path@, *output) {
            Ok(a) => r matches Ok(x) && x@ == a,
            Err(e) => r matches Err(m) && m@ == e,
        },
{
    match q {
        PushQuery::Head => Err(String::new()),
        PushQuery::Config(key) => match output.code {
            Some(0) => Ok(Answer::Text(Some(string_of(&trimmed(&chars_of(output.stdout.as_str())))))),
            Some(1) => Ok(Answer::Text(None)),
            _ => Err(quoted_error("fatal: failed to read config '", key.as_str(), "' in '", repo_path, output)),
        },
        PushQuery::FullName(_) => {
            if !output.success() {
                return Ok(Answer::Text(None));
            }
            let t = trimmed(&chars_of(output.stdout.as_str()));
            if t.len() == 0 {
                Ok(Answer::Text(None))
            } else {
                Ok(Answer::Text(Some(string_of(&t))))
            }
        },
        PushQuery::Resolves(_) => Ok(Answer::Flag(output.success())),
        PushQuery::Tracking { remote, branch } => match output.code {
            Some(0) => Ok(Answer::Flag(true)),
            Some(1) => Ok(Answer::Flag(false)),
            _ => {
                let mut rf = lit("refs/remotes/");
                extend(&mut rf, &chars_of(remote.as_str()));
                extend(&mut rf, &lit("/"));
                extend(&mut rf, &chars_of(branch.as_str()));
                let rf = string_of(&rf);
                Err(quoted_error("fatal: failed to check '", rf.as_str(), "' in '", repo_path, output))
            },
        },
        PushQuery::Novel { .. } => {
            let args = query_invocation(q);
            match stdout_or_error(&args, repo_path, output) {
                Ok(out) => Ok(Answer::Flag(trimmed(&chars_of(out.as_str())).len() > 0)),
                Err(e) => Err(e),
            }
        },
    }
}

/// The refspec facts after learning the answer to a query.
pub open spec fn learned(f: Known, q: Question, a: Reply) -> Known {
    match (q, a) {
        (Question::FullName(_), Reply::Text(t)) => Known { full_name: Some(t), ..f },
        (Question::Resolves(_), Reply::Flag(b)) => Known { resolves: Some(b), ..f },
        (Question::Tracking(_, _), Reply::Flag(b)) => Known { tracking: Some(b), ..f },
        (Question::Novel(_, _), Reply::Flag(b)) => Known { novel: Some(b), ..f },
        _ => f,
    }
}

/// Records the answer to a query among the refspec facts.
pub fn learn_refspec(facts: RefspecFacts, q: &PushQuery, a: Answer) -> (r: RefspecFacts)
    ensures
        r@ == learned(facts@, q@, a@),
{
    match (q, a) {
        (PushQuery::FullName(_), Answer::Text(t)) => RefspecFacts { full_name: Some(t), ..facts },
        (PushQuery::Resolves(_), Answer::Flag(b)) => RefspecFacts { resolves: Some(b), ..facts },
        (PushQuery::Tracking { .. }, Answer::Flag(b)) => RefspecFacts { tracking: Some(b), ..facts },
        (PushQuery::Novel { .. }, Answer::Flag(b)) => RefspecFacts { novel: Some(b), ..facts },
        _ => facts,
    }
}

/// The bare push facts after learning the answer to a query: a config
/// value fills the first config fact not yet known, in the order the
/// classification asks for them.
pub open spec fn bare_learned(f: BareKnown, q: Question, a: Reply) -> BareKnown {
    match (q, a) {
        (Question::Head, Reply::Head(h)) => BareKnown { head: Some(h), ..f },
        (Question::Config(_), Reply::Text(t)) => if f.upstream_remote is None {
            BareKnown { upstream_remote: Some(t), ..f }
        } else if f.upstream_merge is None {
            BareKnown { upstream_merge: Some(t), ..f }
        } else if f.push_remote is None {
            BareKnown { push_remote: Some(t), ..f }
        } else if f.remote_push_default is None {
            BareKnown { remote_push_default: Some(t), ..f }
        } else if f.push_default is None {
            BareKnown { push_default: Some(t), ..f }
        } else {
            f
        },
        (Question::Tracking(_, _), Reply::Flag(b)) => BareKnown { tracking: Some(b), ..f },
        (Question::Novel(_, _), Reply::Flag(b)) => BareKnown { novel: Some(b), ..f },
        _ => f,
    }
}

/// Records the answer to a query among the bare push facts.
pub fn learn_bare(facts: BareFacts, q: &PushQuery, a: Answer) -> (r: BareFacts)
    ensures
        r@ == bare_learned(facts@, q@, a@),
{
    match (q, a) {
        (PushQuery::Head, Answer::Head(h)) => BareFacts { head: Some(h), ..facts },
        (PushQuery::Config(_), Answer::Text(t)) => if facts.upstream_remote.is_none() {
            BareFacts { upstream_remote: Some(t), ..facts }
        } else if facts.upstream_merge.is_none() {
            BareFacts { upstream_merge: Some(t), ..facts }
        } else if facts.push_remote.is_none() {
            BareFacts { push_remote: Some(t), ..facts }
        } else if facts.remote_push_default.is_none() {
            BareFacts { remote_push_default: Some(t), ..facts }
        } else if facts.push_default.is_none() {
            BareFacts { push_default: Some(t), ..facts }
        } else {
            facts
        },
        (PushQuery::Tracking { .. }, Answer::Flag(b)) => BareFacts { tracking: Some(b), ..facts },
        (PushQuery::Novel { .. }, Answer::Flag(b)) => BareFacts { novel: Some(b), ..facts },
        _ => facts,
    }
}

/// How a repository's push is classified: a bare push (to the remote git
/// would pick, or to the named one), the whole push unfiltered (a URL or
/// path), or refspec by refspec against the named remote.
pub enum PushMode {
    Bare(Option<String>),
    All,
    Refspecs(String),
}

/// How a push is classified: without a repository argument, a bare push;
/// with a URL or path, everything unfiltered; with a remote and no
/// refspecs, a bare push to it; else refspec by refspec.
pub fn push_mode(args: &PushArgs) -> (r: PushMode)
    ensures
        match args.repository {
            None => r matches PushMode::Bare(None),
            Some(repo) => if spec_is_url(repo@) {
                r is All
            } else if args.refspecs@.len() == 0 {
                r matches PushMode::Bare(Some(x)) && x@ == repo@
            } else {
                r matches PushMode::Refspecs(x) && x@ == repo@
            },
        },
{
    match &args.repository {
        None => PushMode::Bare(None),
        Some(repository) => if is_url(repository.as_str()) {
            PushMode::All
        } else if args.refspecs.len() == 0 {
            PushMode::Bare(Some(string_of(&chars_of(repository.as_str()))))
        } else {
            PushMode::Refspecs(string_of(&chars_of(repository.as_str())))
        },
    }
}

/// The refspecs classified to push, in order.
pub open spec fn useful(refspecs: Seq<Seq<char>>, classes: Seq<Class>) -> Seq<Seq<char>>
    decreases refspecs.len(),
{
    if refspecs.len() == 0 {
        Seq::empty()
    } else {
        let rest = useful(refspecs.drop_last(), classes.drop_last());
        match classes.last() {
            Class::Attempt => rest.push(refspecs.last()),
            Class::Withhold(_) => rest,
        }
    }
}

/// The reasons of the refspecs withheld, in order.
pub open spec fn withheld(classes: Seq<Class>) -> Seq<Seq<char>>
    decreases classes.len(),
{
    if classes.len() == 0 {
        Seq::empty()
    } else {
        let rest = withheld(classes.drop_last());
        match classes.last() {
            Class::Attempt => rest,
            Class::Withhold(r) => rest.push(r),
        }
    }
}

/// Every refspec of a refspec-by-refspec push is accounted for once: it is
/// either pushed or withheld with a reason.
pub proof fn plan_accounts_for_every_refspec(refspecs: Seq<Seq<char>>, classes: Seq<Class>)
    requires
        refspecs.len() == classes.len(),
    ensures
        useful(refspecs, classes).len() + withheld(classes).len() == refspecs.len(),
    decreases refspecs.len(),
{
    if refspecs.len() > 0 {
        plan_accounts_for_every_refspec(refspecs.drop_last(), classes.drop_last());
    }
}

/// The classes of the refspecs.
pub open spec fn class_views(v: Seq<RefspecClass>) -> Seq<Class> {
    v.map_values(|c: RefspecClass| c@)
}

/// The plan of a refspec-by-refspec push: the refspecs classified to push
/// (no invocation when there are none) and the reasons of the others.
pub fn plan_refspecs(refspecs: &Vec<String>, classes: &Vec<RefspecClass>) -> (p: PushPlan)
    requires
        refspecs@.len() == classes@.len(),
    ensures
        views(p.skips@) == withheld(class_views(classes@)),
        useful(views(refspecs@), class_views(classes@)).len() == 0 ==> p.attempt is None,
        useful(views(refspecs@), class_views(classes@)).len() > 0 ==> (p.attempt matches Some(
            v,
        ) && views(v@) == useful(views(refspecs@), class_views(classes@))),
{
    let mut attempt: Vec<String> = Vec::new();
    let mut skips: Vec<String> = Vec::new();
    let mut i: usize = 0;
    while i < refspecs.len()
        invariant
            i <= refspecs.len(),
            refspecs@.len() == classes@.len(),
            views(attempt@) == useful(views(refspecs@).take(i as int), class_views(classes@).take(i as int)),
            views(skips@) == withheld(class_views(classes@).take(i as int)),
        decreases refspecs.len() - i,
    {
        proof {
            assert(views(refspecs@).take(i + 1).drop_last() =~= views(refspecs@).take(i as int));
            assert(class_views(classes@).take(i + 1).drop_last() =~= class_views(classes@).take(i as int));
            assert(views(refspecs@).take(i + 1).last() == refspecs@[i as int]@);
            assert(class_views(classes@).take(i + 1).last() == classes@[i as int]@);
        }
        let ghost a0 = views(attempt@);
        let ghost s0 = views(skips@);
        match &classes[i] {
            RefspecClass::Push => {
                attempt.push(string_of(&chars_of(refspecs[i].as_str())));
                assert(views(attempt@) =~= a0.push(refspecs@[i as int]@));
            },
            RefspecClass::Skip(reason) => {
                skips.push(string_of(&chars_of(reason.as_str())));
                assert(views(skips@) =~= s0.push(reason@));
            },
        }
        i += 1;
    }
    assert(views(refspecs@).take(refspecs.len() as int) =~= views(refspecs@));
    assert(class_views(classes@).take(refspecs.len() as int) =~= class_views(classes@));
    if attempt.len() == 0 {
        PushPlan { attempt: None, skips }
    } else {
        PushPlan { attempt: Some(attempt), skips }
    }
}

/// The arguments of the push: `push`, the repository argument when given,
/// then the refspecs.
pub open spec fn push_query(repository: Option<Seq<char>>, refspecs: Seq<Seq<char>>) -> Seq<Seq<char>> {
    seq!["push"@] + match repository {
        Some(r) => seq![r],
        None => Seq::empty(),
    } + refspecs
}

/// The arguments of the push.
pub fn push_invocation(repository: &Option<String>, refspecs: &Vec<String>) -> (r: Vec<String>)
    ensures
        views(r@) == push_query(repository.deep_view(), views(refspecs@)),
{
    let mut r: Vec<String> = Vec::new();
    r.push(string_of(&lit("push")));
    match repository {
        Some(x) => r.push(string_of(&chars_of(x.as_str()))),
        None => {},
    }
    let ghost head = views(r@);
    let mut i: usize = 0;
    while i < refspecs.len()
        invariant
            i <= refspecs.len(),
            views(r@) == head + views(refspecs@).take(i as int),
        decreases refspecs.len() - i,
    {
        let ghost before = views(r@);
        r.push(string_of(&chars_of(refspecs[i].as_str())));
        assert(views(r@) =~= before.push(refspecs@[i as int]@));
        assert(views(refspecs@).take(i + 1) =~= views(refspecs@).take(i as int).push(refspecs@[i as int]@));
        i += 1;
    }
    assert(views(refspecs@).take(refspecs.len() as int) =~= views(refspecs@));
    assert(views(r@) =~= push_query(repository.deep_view(), views(refspecs@)));
    r
}

/// The report of a push: git's first stderr line (else stdout) on success,
/// the same on failure, else `git push failed`.
pub open spec fn push_success() -> SuccessModel {
    SuccessModel::Line(Streams::StderrThenStdout, None)
}

/// The failure report of a push.
pub open spec fn push_failure() -> FailureModel {
    FailureModel::Line(Streams::StderrThenStdout, "git push failed"@)
}

/// The outcome of the push in `repo`.
pub fn push_outcome(repo: &Repo, output: &GitOutput) -> (r: RepoOutcome)
    ensures
        r@ == reported_outcome(push_success(), push_failure(), *repo, *output),
{
    command_result(
        repo,
        output,
        SuccessReport::line(Streams::StderrThenStdout, OnEmpty::Quiet),
        FailureReport::line(Streams::StderrThenStdout, "git push failed"),
    )
}

/// The outcomes of a repository's classified push: a skip per withheld
/// refspec, in order, then the push's outcome when one was attempted.
pub open spec fn plan_outcomes(repo: Repo, skips: Seq<Seq<char>>, pushed: Option<GitOutput>) -> Seq<
    OutcomeView,
> {
    skips.map_values(|m: Seq<char>| OutcomeView::Skipped { repo: repo.name@, message: m })
        + match pushed {
        Some(o) => seq![reported_outcome(push_success(), push_failure(), repo, o)],
        None => Seq::empty(),
    }
}

/// The outcomes of a repository's classified push, from its plan and the
/// output of the push when the plan attempted one.
pub fn repo_results(repo: &Repo, plan: &PushPlan, pushed: Option<&GitOutput>) -> (r: Vec<RepoOutcome>)
    requires
        plan.attempt is Some <==> pushed is Some,
    ensures
        outcome_views(r@) == plan_outcomes(
            *repo,
            views(plan.skips@),
            match pushed {
                Some(o) => Some(*o),
                None => None,
            },
        ),
{
    let mut r: Vec<RepoOutcome> = Vec::new();
    let mut i: usize = 0;
    while i < plan.skips.len()
        invariant
            i <= plan.skips.len(),
            outcome_views(r@) == views(plan.skips@).take(i as int).map_values(
                |m: Seq<char>| OutcomeView::Skipped { repo: repo.name@, message: m },
            ),
        decreases plan.skips.len() - i,
    {
        let o = skip_message(repo.name.as_str(), string_of(&chars_of(plan.skips[i].as_str())));
        let ghost before = outcome_views(r@);
        r.push(o);
        assert(outcome_views(r@) =~= before.push(o@));
        assert(views(plan.skips@).take(i + 1).map_values(
            |m: Seq<char>| OutcomeView::Skipped { repo: repo.name@, message: m },
        ) =~= views(plan.skips@).take(i as int).map_values(
            |m: Seq<char>| OutcomeView::Skipped { repo: repo.name@, message: m },
        ).push(o@));
        i += 1;
    }
    assert(views(plan.skips@).take(plan.skips.len() as int) =~= views(plan.skips@));
    let ghost skipped = outcome_views(r@);
    match pushed {
        Some(o) => {
            let x = push_outcome(repo, o);
            r.push(x);
            assert(outcome_views(r@) =~= skipped.push(x@));
        },
        None => {},
    }
    assert(outcome_views(r@) =~= plan_outcomes(
        *repo,
        views(plan.skips@),
        match pushed {
            Some(o) => Some(*o),
            None => None,
        },
    ));
    r
}

/// All repositories' outcomes, in repository order.
pub open spec fn flattened(v: Seq<Vec<RepoOutcome>>) -> Seq<OutcomeView>
    decreases v.len(),
{
    if v.len() == 0 {
        Seq::empty()
    } else {
        flattened(v.drop_last()) + outcome_views(v.last()@)
    }
}

/// The push over the child repositories: each repository's outcomes (its
/// skips and its push), aggregated over the `total` repositories.
pub fn run(results: &Vec<Vec<RepoOutcome>>, total: usize) -> (r: Result<Rendered, Failed>)
    ensures
        ({
            let (out, err, failures) = aggregate(flattened(results@), total as nat);
            match r {
                Ok(x) => outcome_pairs(flattened(results@), 2).len() == 0 && x.stdout@ == out
                    && x.stderr@ == err && x.pager is None,
                Err(f) => outcome_pairs(flattened(results@), 2).len() > 0 && f.message@ == failures
                    && f.rendered.stdout@ == out && f.rendered.stderr@ == err,
            }
        }),
{
    let mut all: Vec<RepoOutcome> = Vec::new();
    let mut i: usize = 0;
    while i < results.len()
        invariant
            i <= results.len(),
            outcome_views(all@) == flattened(results@.take(i as int)),
        decreases results.len() - i,
    {
        let ghost start = outcome_views(all@);
        let rs = &results[i];
        let mut k: usize = 0;
        while k < rs.len()
            invariant
                k <= rs.len(),
                i < results@.len(),
                rs == &results@[i as int],
                outcome_views(all@) == start + outcome_views(rs@.take(k as int)),
            decreases rs.len() - k,
        {
            let o = copy_outcome(&rs[k]);
            let ghost before = outcome_views(all@);
            all.push(o);
            assert(outcome_views(all@) =~= before.push(rs@[k as int]@));
            assert(outcome_views(rs@.take(k + 1)) =~= outcome_views(rs@.take(k as int)).push(
                rs@[k as int]@,
            ));
            k += 1;
        }
        proof {
            assert(rs@.take(rs.len() as int) =~= rs@);
            let t = results@.take(i + 1);
            assert(t.drop_last() =~= results@.take(i as int));
            assert(t.last() == results@[i as int]);
        }
        i += 1;
    }
    assert(results@.take(results.len() as int) =~= results@);
    outcomes(&all, total)
}

fn copy_outcome(o: &RepoOutcome) -> (r: RepoOutcome)
    ensures
        r@ == o@,
{
    match o {
        RepoOutcome::Success(None) => RepoOutcome::Success(None),
        RepoOutcome::Success(Some(m)) => crate::git::success_message(
            m.repo.as_str(),
            string_of(&chars_of(m.message.as_str())),
        ),
        RepoOutcome::Failure(m) => crate::git::failure_message(
            m.repo.as_str(),
            string_of(&chars_of(m.message.as_str())),
        ),
        RepoOutcome::Skipped(m) => skip_message(m.repo.as_str(), string_of(&chars_of(m.message.as_str()))),
    }
}

} // verus!
