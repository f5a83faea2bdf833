//! `foreach`: a shell command evaluated in every child repository. The
//! library decides what each child is told (the command line and the
//! paths in its environment), how a child's end is described, and whether
//! the whole command failed.

use crate::git::{format_git_args, joined_args, views};
use crate::paths::{prefix_from, shown_prefix};
use crate::render::{decimal, decimal_of, fail, Failed, Rendered};
use crate::text::{chars_of, extend, lit, string_of};
use vstd::prelude::*;

verus! {

/// Evaluates an arbitrary shell command in each checked out repository.
pub struct ForeachArgs {
    /// Only print error messages
    pub quiet: bool,
    /// Command to evaluate through the shell
    pub command: Vec<String>,
}

/// How a child's command ended.
#[derive(Clone, Copy)]
pub enum ChildStatus {
    Success,
    Exit(i32),
    /// Ended without an exit code (killed by a signal).
    Signal,
}

/// An exit code as text, with a minus sign when negative.
pub open spec fn signed_decimal(c: int) -> Seq<char> {
    if c < 0 {
        "-"@ + decimal((-c) as nat)
    } else {
        decimal(c as nat)
    }
}

/// What a failure message says of how a child's command ended.
pub open spec fn description(s: ChildStatus) -> Seq<char> {
    match s {
        ChildStatus::Success => "exit status 0"@,
        ChildStatus::Exit(c) => "exit status "@ + signed_decimal(c as int),
        ChildStatus::Signal => "terminated by signal"@,
    }
}

impl ChildStatus {
    /// How a command ended, from its exit code: zero is success, no code a
    /// signal.
    pub fn from_exit(code: Option<i32>) -> (r: ChildStatus)
        ensures
            match code {
                Some(c) => if c == 0 {
                    r is Success
                } else {
                    r == ChildStatus::Exit(c)
                },
                None => r is Signal,
            },
    {
        match code {
            Some(0) => ChildStatus::Success,
            Some(c) => ChildStatus::Exit(c),
            None => ChildStatus::Signal,
        }
    }

    /// Whether the command succeeded.
    pub fn success(&self) -> (r: bool)
        ensures
            r == (*self is Success),
    {
        match self {
            ChildStatus::Success => true,
            _ => false,
        }
    }

    /// How the command ended, as a failure message says it.
    pub fn describe(&self) -> (r: String)
        ensures
            r@ == description(*self),
    {
        match self {
            ChildStatus::Success => string_of(&lit("exit status 0")),
            ChildStatus::Exit(c) => {
                let mut r = lit("exit status ");
                if *c < 0 {
                    let m: i64 = *c as i64;
                    let n: usize = (-m) as usize;
                    r.push('-');
                    extend(&mut r, &decimal_of(n));
                    proof {
                        reveal_strlit("-");
                        reveal_strlit("exit status ");
                        assert(r@ =~= "exit status "@ + signed_decimal(*c as int));
                    }
                } else {
                    extend(&mut r, &decimal_of(*c as usize));
                }
                string_of(&r)
            },
            ChildStatus::Signal => string_of(&lit("terminated by signal")),
        }
    }
}

/// The command line the shell evaluates: the words joined by spaces.
pub fn shell_line(words: &Vec<String>) -> (r: String)
    ensures
        r@ == joined_args(views(words@)),
{
    string_of(&format_git_args(words))
}

/// The path of a child as shown from `working_dir` (`displaypath`): its
/// relative path, or `.` for the working directory itself.
pub open spec fn display_path(repo_path: Seq<char>, working_dir: Seq<char>) -> Seq<char> {
    if shown_prefix(repo_path, working_dir).len() == 0 {
        "."@
    } else {
        shown_prefix(repo_path, working_dir)
    }
}

/// The path of a child as shown from `working_dir`.
pub fn display_path_of(repo_path: &str, working_dir: &str) -> (r: String)
    ensures
        r@ == display_path(repo_path@, working_dir@),
{
    let p = prefix_from(repo_path, working_dir);
    if p.len() == 0 {
        string_of(&lit("."))
    } else {
        string_of(&p)
    }
}

/// The part of `path` below `base` that `Path::strip_prefix` gives, as
/// text.
pub uninterp spec fn path_below(path: Seq<char>, base: Seq<char>) -> Option<Seq<char>>;

/// `std::path::Path::strip_prefix(path, base)`, displayed: the part of
/// `path` below `base`, or `None` when `base` is not a leading part of it.
/// The contract names the result as a function of the two paths.
#[verifier::external_body]
fn strip_base(path: &str, base: &str) -> (r: Option<String>)
    ensures
        match r {
            Some(s) => path_below(path@, base@) == Some(s@),
            None => path_below(path@, base@) is None,
        },
{
    match std::path::Path::new(path).strip_prefix(std::path::Path::new(base)) {
        Ok(p) => Some(p.display().to_string()),
        Err(_) => None,
    }
}

/// The path of a child relative to the root (`sm_path`): the part below
/// the root, or the path itself when it is not below the root.
pub open spec fn root_relative(repo_path: Seq<char>, root: Seq<char>) -> Seq<char> {
    match path_below(repo_path, root) {
        Some(p) => p,
        None => repo_path,
    }
}

/// The path of a child relative to the root.
pub fn root_relative_of(repo_path: &str, root: &str) -> (r: String)
    ensures
        r@ == root_relative(repo_path@, root@),
{
    match strip_base(repo_path, root) {
        Some(p) => p,
        None => string_of(&chars_of(repo_path)),
    }
}

/// The failure line of a child whose command failed.
pub open spec fn failure_line(name: Seq<char>, s: ChildStatus) -> Seq<char> {
    "fatal: command failed in '"@ + name + "' with "@ + description(s)
}

/// The failure lines of the children whose command failed, in order.
pub open spec fn failure_lines(children: Seq<(String, ChildStatus)>) -> Seq<Seq<char>>
    decreases children.len(),
{
    if children.len() == 0 {
        Seq::empty()
    } else {
        let rest = failure_lines(children.drop_last());
        if children.last().1 is Success {
            rest
        } else {
            rest.push(failure_line(children.last().0@, children.last().1))
        }
    }
}

/// Lines joined by newlines.
pub open spec fn line_block(lines: Seq<Seq<char>>) -> Seq<char>
    decreases lines.len(),
{
    if lines.len() == 0 {
        Seq::empty()
    } else if lines.len() == 1 {
        lines[0]
    } else {
        line_block(lines.drop_last()) + "\n"@ + lines.last()
    }
}

/// The outcome of `foreach` from each child's name and end, in repository
/// order, and the rendered output of the children: the output when every
/// command succeeded, else a failure keeping the output whose message has
/// a line per failed child and a closing `fatal: foreach failed`.
pub fn finish(children: &Vec<(String, ChildStatus)>, rendered: Rendered) -> (r: Result<
    Rendered,
    Failed,
>)
    ensures
        failure_lines(children@).len() == 0 ==> r == Ok::<Rendered, Failed>(rendered),
        failure_lines(children@).len() > 0 ==> (r matches Err(f) && f.rendered == rendered
            && f.message@ == line_block(
            failure_lines(children@).push("fatal: foreach failed"@),
        )),
{
    let mut lines: Vec<Vec<char>> = Vec::new();
    let mut i: usize = 0;
    while i < children.len()
        invariant
            i <= children.len(),
            crate::group::names(lines@) == failure_lines(children@.take(i as int)),
        decreases children.len() - i,
    {
        assert(children@.take(i + 1).drop_last() =~= children@.take(i as int));
        let (name, status) = &children[i];
        if !status.success() {
            let mut l = lit("fatal: command failed in '");
            extend(&mut l, &chars_of(name.as_str()));
            extend(&mut l, &lit("' with "));
            extend(&mut l, &chars_of(status.describe().as_str()));
            let ghost before = crate::group::names(lines@);
            lines.push(l);
            assert(crate::group::names(lines@) =~= before.push(l@));
        }
        assert(crate::group::names(lines@) =~= failure_lines(children@.take(i + 1)));
        i += 1;
    }
    assert(children@.take(children.len() as int) =~= children@);
    if lines.len() == 0 {
        return Ok(rendered);
    }
    let ghost fl = crate::group::names(lines@);
    lines.push(lit("fatal: foreach failed"));
    assert(crate::group::names(lines@) =~= fl.push("fatal: foreach failed"@));
    let mut message: Vec<char> = Vec::new();
    let mut k: usize = 0;
    while k < lines.len()
        invariant
            k <= lines.len(),
            message@ == line_block(crate::group::names(lines@).take(k as int)),
        decreases lines.len() - k,
    {
        if k > 0 {
            message.push('\n');
        }
        extend(&mut message, &lines[k]);
        proof {
            reveal_strlit("\n");
            let t = crate::group::names(lines@).take(k + 1);
            assert(t.drop_last() =~= crate::group::names(lines@).take(k as int));
            assert(t.last() == lines@[k as int]@);
            if k == 0 {
                assert(message@ =~= t[0]);
            }
        }
        k += 1;
    }
    assert(crate::group::names(lines@).take(lines.len() as int) =~= crate::group::names(lines@));
    Err(fail(rendered, string_of(&message)))
}

/// What one child's command printed.
pub struct ChildOutput {
    pub repo: String,
    pub stdout: String,
    pub stderr: String,
}

/// The children's standard output, in order.
pub open spec fn all_stdout(cs: Seq<ChildOutput>) -> Seq<char>
    decreases cs.len(),
{
    if cs.len() == 0 {
        Seq::empty()
    } else {
        all_stdout(cs.drop_last()) + cs.last().stdout@
    }
}

/// The children's standard error, in order.
pub open spec fn all_stderr(cs: Seq<ChildOutput>) -> Seq<char>
    decreases cs.len(),
{
    if cs.len() == 0 {
        Seq::empty()
    } else {
        all_stderr(cs.drop_last()) + cs.last().stderr@
    }
}

/// The output of `foreach`: the children's standard output in repository
/// order, none with `quiet`, and their standard error in repository order.
pub fn render(children: &Vec<ChildOutput>, quiet: bool) -> (r: Rendered)
    ensures
        quiet ==> r.stdout@.len() == 0,
        !quiet ==> r.stdout@ == all_stdout(children@),
        r.stderr@ == all_stderr(children@),
        r.pager is None,
{
    let mut out: Vec<char> = Vec::new();
    let mut err: Vec<char> = Vec::new();
    let mut i: usize = 0;
    while i < children.len()
        invariant
            i <= children.len(),
            quiet ==> out@.len() == 0,
            !quiet ==> out@ == all_stdout(children@.take(i as int)),
            err@ == all_stderr(children@.take(i as int)),
        decreases children.len() - i,
    {
        assert(children@.take(i + 1).drop_last() =~= children@.take(i as int));
        if !quiet {
            extend(&mut out, &chars_of(children[i].stdout.as_str()));
        }
        extend(&mut err, &chars_of(children[i].stderr.as_str()));
        i += 1;
    }
    assert(children@.take(children.len() as int) =~= children@);
    Rendered { stdout: string_of(&out), stderr: string_of(&err), pager: None }
}

} // verus!
