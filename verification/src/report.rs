//! How a git invocation's captured output becomes a repository outcome:
//! which streams speak for a success or a failure, and what is said when
//! they are silent.

use crate::git::{GitOutput, OutcomeView, Repo, RepoMessage, RepoOutcome};
use crate::text::{chars_of, extend, find_char, lit, slice_of, string_of, trim, trimmed, find_from};
use vstd::prelude::*;

verus! {

/// The streams consulted for a report line, in the order they are tried.
#[derive(Clone, Copy)]
pub enum Streams {
    StdoutOnly,
    StderrOnly,
    StdoutThenStderr,
    StderrThenStdout,
}

/// What a success says when none of its streams has anything to say.
pub enum OnEmpty {
    Quiet,
    Text(String),
}

/// How a success is reported.
pub enum SuccessReport {
    /// Nothing is said.
    Quiet,
    /// The first line of the first stream that says something.
    Line(Streams, OnEmpty),
}

/// How a failure is reported.
pub enum FailureReport {
    /// `git <command> failed for '<path>': <stderr>`.
    Detailed(String),
    /// The first line of the first stream that says something, else the
    /// fallback text.
    Line(Streams, String),
}

/// A success report as text.
pub enum SuccessModel {
    Quiet,
    Line(Streams, Option<Seq<char>>),
}

/// A failure report as text.
pub enum FailureModel {
    Detailed(Seq<char>),
    Line(Streams, Seq<char>),
}

impl View for SuccessReport {
    type V = SuccessModel;

    open spec fn view(&self) -> SuccessModel {
        match self {
            SuccessReport::Quiet => SuccessModel::Quiet,
            SuccessReport::Line(s, OnEmpty::Quiet) => SuccessModel::Line(*s, None),
            SuccessReport::Line(s, OnEmpty::Text(t)) => SuccessModel::Line(*s, Some(t@)),
        }
    }
}

impl View for FailureReport {
    type V = FailureModel;

    open spec fn view(&self) -> FailureModel {
        match self {
            FailureReport::Detailed(c) => FailureModel::Detailed(c@),
            FailureReport::Line(s, f) => FailureModel::Line(*s, f@),
        }
    }
}

impl SuccessReport {
    /// A success that says nothing.
    pub fn quiet() -> (r: SuccessReport)
        ensures
            r@ == SuccessModel::Quiet,
    {
        SuccessReport::Quiet
    }

    /// A success reported by the first line of `streams`.
    pub fn line(streams: Streams, on_empty: OnEmpty) -> (r: SuccessReport)
        ensures
            r == SuccessReport::Line(streams, on_empty),
            r@ == SuccessModel::Line(streams, match on_empty {
                OnEmpty::Quiet => None,
                OnEmpty::Text(t) => Some(t@),
            }),
    {
        SuccessReport::Line(streams, on_empty)
    }
}

impl FailureReport {
    /// A failure quoting the command, the repository path and stderr.
    pub fn detailed(command: &str) -> (r: FailureReport)
        ensures
            r@ == FailureModel::Detailed(command@),
    {
        FailureReport::Detailed(string_of(&chars_of(command)))
    }

    /// A failure reported by the first line of `streams`, else `fallback`.
    pub fn line(streams: Streams, fallback: &str) -> (r: FailureReport)
        ensures
            r@ == FailureModel::Line(streams, fallback@),
    {
        FailureReport::Line(streams, string_of(&chars_of(fallback)))
    }
}

/// `s` up to its first newline.
pub open spec fn up_to_newline(s: Seq<char>) -> Seq<char> {
    match find_from(s, '\n', 0) {
        Some(e) => s.take(e),
        None => s,
    }
}

/// Whether a stream says something: it is not all white space.
pub open spec fn speaks(s: Seq<char>) -> bool {
    trim(s).len() > 0
}

/// The first line of what a stream says, trimmed.
pub open spec fn first_line(s: Seq<char>) -> Seq<char> {
    trim(up_to_newline(trim(s)))
}

/// The first line of the first of `streams` that says something.
pub open spec fn reported_line(streams: Streams, out: Seq<char>, err: Seq<char>) -> Option<
    Seq<char>,
> {
    let (a, b) = match streams {
        Streams::StdoutOnly => (out, Seq::empty()),
        Streams::StderrOnly => (err, Seq::empty()),
        Streams::StdoutThenStderr => (out, err),
        Streams::StderrThenStdout => (err, out),
    };
    if speaks(a) {
        Some(first_line(a))
    } else if speaks(b) {
        Some(first_line(b))
    } else {
        None
    }
}

/// The detailed failure message of `command` run in `path`.
pub open spec fn detailed_message(command: Seq<char>, path: Seq<char>, err: Seq<char>) -> Seq<
    char,
> {
    "git "@ + command + " failed for '"@ + path + "': "@ + trim(err)
}

/// The outcome that a report policy gives an invocation in `repo`.
pub open spec fn reported_outcome(
    success: SuccessModel,
    failure: FailureModel,
    repo: Repo,
    output: GitOutput,
) -> OutcomeView {
    if output.succeeded() {
        match success {
            SuccessModel::Quiet => OutcomeView::Quiet,
            SuccessModel::Line(streams, on_empty) => match reported_line(
                streams,
                output.stdout@,
                output.stderr@,
            ) {
                Some(line) => OutcomeView::Success { repo: repo.name@, message: line },
                None => match on_empty {
                    None => OutcomeView::Quiet,
                    Some(t) => OutcomeView::Success { repo: repo.name@, message: t },
                },
            },
        }
    } else {
        match failure {
            FailureModel::Detailed(command) => OutcomeView::Failure {
                repo: repo.name@,
                message: detailed_message(command, repo.path@, output.stderr@),
            },
            FailureModel::Line(streams, fallback) => OutcomeView::Failure {
                repo: repo.name@,
                message: match reported_line(streams, output.stdout@, output.stderr@) {
                    Some(line) => line,
                    None => fallback,
                },
            },
        }
    }
}

/// The first line of what a stream says, trimmed.
fn first_line_of(s: &str) -> (r: Vec<char>)
    ensures
        r@ == first_line(s@),
{
    let t = trimmed(&chars_of(s));
    match find_char(&t, '\n', 0) {
        Some(e) => {
            proof {
                crate::text::lemma_find_from(t@, '\n', 0);
            }
            trimmed(&slice_of(&t, 0, e))
        },
        None => trimmed(&t),
    }
}

fn speaks_exec(s: &str) -> (r: bool)
    ensures
        r == speaks(s@),
{
    trimmed(&chars_of(s)).len() > 0
}

/// The first line of the first of `streams` that says something.
fn reported_line_of(streams: &Streams, output: &GitOutput) -> (r: Option<Vec<char>>)
    ensures
        r matches Some(l) ==> reported_line(*streams, output.stdout@, output.stderr@) == Some(
            l@,
        ),
        r is None ==> reported_line(*streams, output.stdout@, output.stderr@) is None,
{
    let (a, b) = match streams {
        Streams::StdoutOnly => (output.stdout.as_str(), ""),
        Streams::StderrOnly => (output.stderr.as_str(), ""),
        Streams::StdoutThenStderr => (output.stdout.as_str(), output.stderr.as_str()),
        Streams::StderrThenStdout => (output.stderr.as_str(), output.stdout.as_str()),
    };
    proof {
        reveal_strlit("");
        assert(""@ =~= Seq::<char>::empty());
    }
    if speaks_exec(a) {
        Some(first_line_of(a))
    } else if speaks_exec(b) {
        Some(first_line_of(b))
    } else {
        None
    }
}

/// The outcome of an invocation in `repo` under a report policy: on exit
/// status 0 the success report, else the failure report.
pub fn command_result(
    repo: &Repo,
    output: &GitOutput,
    success: SuccessReport,
    failure: FailureReport,
) -> (r: RepoOutcome)
    ensures
        r@ == reported_outcome(success@, failure@, *repo, *output),
{
    let name = string_of(&chars_of(repo.name.as_str()));
    if output.success() {
        match success {
            SuccessReport::Quiet => RepoOutcome::Success(None),
            SuccessReport::Line(streams, on_empty) => match reported_line_of(&streams, output) {
                Some(line) => RepoOutcome::Success(
                    Some(RepoMessage { repo: name, message: string_of(&line) }),
                ),
                None => match on_empty {
                    OnEmpty::Quiet => RepoOutcome::Success(None),
                    OnEmpty::Text(t) => RepoOutcome::Success(
                        Some(RepoMessage { repo: name, message: t }),
                    ),
                },
            },
        }
    } else {
        match failure {
            FailureReport::Detailed(command) => {
                let mut m = lit("git ");
                extend(&mut m, &chars_of(command.as_str()));
                extend(&mut m, &lit(" failed for '"));
                extend(&mut m, &chars_of(repo.path.as_str()));
                extend(&mut m, &lit("': "));
                extend(&mut m, &crate::git::stderr(output));
                RepoOutcome::Failure(RepoMessage { repo: name, message: string_of(&m) })
            },
            FailureReport::Line(streams, fallback) => {
                let message = match reported_line_of(&streams, output) {
                    Some(line) => string_of(&line),
                    None => fallback,
                };
                RepoOutcome::Failure(RepoMessage { repo: name, message })
            },
        }
    }
}

} // verus!
