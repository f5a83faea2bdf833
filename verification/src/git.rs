//! The git seam: how a git invocation is spelled, what one reports back,
//! and the per-repository outcome vocabulary every command shares.
//!
//! Running a process is the application's job; the library plans each
//! invocation as an argument vector and interprets the captured output.

use crate::text::{chars_of, extend, lit, string_of, trim, trimmed};
use vstd::prelude::*;

verus! {

/// What one git invocation reported: its exit code (`None` when a signal
/// ended it) and its captured output, decoded as text.
#[derive(Debug)]
pub struct GitOutput {
    pub code: Option<i32>,
    pub stdout: String,
    pub stderr: String,
}

impl GitOutput {
    pub open spec fn succeeded(&self) -> bool {
        self.code == Some(0i32)
    }

    /// Whether the invocation exited with status 0.
    pub fn success(&self) -> (r: bool)
        ensures
            r == self.succeeded(),
    {
        match self.code {
            Some(c) => c == 0,
            None => false,
        }
    }
}

/// The trimmed standard error of an invocation, as error messages quote
/// it.
pub fn stderr(output: &GitOutput) -> (r: Vec<char>)
    ensures
        r@ == trim(output.stderr@),
{
    trimmed(&chars_of(output.stderr.as_str()))
}

/// A message attributed to one child repository.
#[derive(Debug)]
pub struct RepoMessage {
    pub repo: String,
    pub message: String,
}

/// How one child repository fared.
#[derive(Debug)]
pub enum RepoOutcome {
    Success(Option<RepoMessage>),
    Failure(RepoMessage),
    /// The operation was deliberately not attempted; the reason is required.
    Skipped(RepoMessage),
}

/// A child repository: its name in the virtual monorepo and the path of
/// its working tree.
#[derive(Debug)]
pub struct Repo {
    pub name: String,
    pub path: String,
}

/// What an outcome says, as text: quiet success, or a message attributed
/// to a repository.
pub enum OutcomeView {
    Quiet,
    Success { repo: Seq<char>, message: Seq<char> },
    Failure { repo: Seq<char>, message: Seq<char> },
    Skipped { repo: Seq<char>, message: Seq<char> },
}

impl View for RepoOutcome {
    type V = OutcomeView;

    open spec fn view(&self) -> OutcomeView {
        match self {
            RepoOutcome::Success(None) => OutcomeView::Quiet,
            RepoOutcome::Success(Some(m)) => OutcomeView::Success {
                repo: m.repo@,
                message: m.message@,
            },
            RepoOutcome::Failure(m) => OutcomeView::Failure { repo: m.repo@, message: m.message@ },
            RepoOutcome::Skipped(m) => OutcomeView::Skipped { repo: m.repo@, message: m.message@ },
        }
    }
}

/// Success with nothing to report.
pub fn quiet_success() -> (r: RepoOutcome)
    ensures
        r is Success && r->Success_0 is None,
{
    RepoOutcome::Success(None)
}

/// Success reporting `message` for `repo_name`.
pub fn success_message(repo_name: &str, message: String) -> (r: RepoOutcome)
    ensures
        r is Success && r->Success_0 is Some,
        r->Success_0->0.repo@ == repo_name@,
        r->Success_0->0.message@ == message@,
{
    RepoOutcome::Success(Some(RepoMessage { repo: string_of(&chars_of(repo_name)), message }))
}

/// Failure reporting `message` for `repo_name`.
pub fn failure_message(repo_name: &str, message: String) -> (r: RepoOutcome)
    ensures
        r is Failure,
        r->Failure_0.repo@ == repo_name@,
        r->Failure_0.message@ == message@,
{
    RepoOutcome::Failure(RepoMessage { repo: string_of(&chars_of(repo_name)), message })
}

/// A deliberate skip of `repo_name`, with its reason.
pub fn skip_message(repo_name: &str, reason: String) -> (r: RepoOutcome)
    ensures
        r is Skipped,
        r->Skipped_0.repo@ == repo_name@,
        r->Skipped_0.message@ == reason@,
{
    RepoOutcome::Skipped(RepoMessage { repo: string_of(&chars_of(repo_name)), message: reason })
}

/// Where a child repository's `HEAD` points.
pub enum Head {
    Branch(String),
    Detached(String),
    /// A branch with no commits yet.
    Unborn(String),
}

/// A head as text.
pub enum HeadView {
    Branch(Seq<char>),
    Detached(Seq<char>),
    Unborn(Seq<char>),
}

impl View for Head {
    type V = HeadView;

    open spec fn view(&self) -> HeadView {
        match self {
            Head::Branch(b) => HeadView::Branch(b@),
            Head::Detached(h) => HeadView::Detached(h@),
            Head::Unborn(b) => HeadView::Unborn(b@),
        }
    }
}

/// The rank of a head kind in head order: branches, then detached heads,
/// then unborn branches.
pub open spec fn head_rank(h: Head) -> int {
    match h {
        Head::Branch(_) => 0,
        Head::Detached(_) => 1,
        Head::Unborn(_) => 2,
    }
}

/// The name or hash a head carries.
pub open spec fn head_text(h: Head) -> Seq<char> {
    match h {
        Head::Branch(s) => s@,
        Head::Detached(s) => s@,
        Head::Unborn(s) => s@,
    }
}

/// The program and the leading options every invocation carries.
pub struct Git {
    pub program: String,
}

impl Git {
    /// The git of the `PATH`, run as a subprocess.
    pub fn subprocess() -> (g: Git)
        ensures
            g.program@ == "git"@,
    {
        Git { program: string_of(&lit("git")) }
    }

    /// The full command line of `args` run in `repo_path`: the program,
    /// `--no-optional-locks`, `-C <repo_path>`, then the arguments.
    pub fn command_line(&self, repo_path: &str, args: &Vec<String>) -> (r: Vec<String>)
        ensures
            r@.len() == args@.len() + 4,
            r@[0]@ == self.program@,
            r@[1]@ == "--no-optional-locks"@,
            r@[2]@ == "-C"@,
            r@[3]@ == repo_path@,
            forall|i: int| 0 <= i < args@.len() ==> #[trigger] r@[i + 4]@ == args@[i]@,
    {
        let mut r: Vec<String> = Vec::new();
        r.push(string_of(&chars_of(self.program.as_str())));
        r.push(string_of(&lit("--no-optional-locks")));
        r.push(string_of(&lit("-C")));
        r.push(string_of(&chars_of(repo_path)));
        let mut i: usize = 0;
        while i < args.len()
            invariant
                i <= args.len(),
                r@.len() == i + 4,
                r@[0]@ == self.program@,
                r@[1]@ == "--no-optional-locks"@,
                r@[2]@ == "-C"@,
                r@[3]@ == repo_path@,
                forall|k: int| 0 <= k < i ==> #[trigger] r@[k + 4]@ == args@[k]@,
            decreases args.len() - i,
        {
            r.push(string_of(&chars_of(args[i].as_str())));
            i += 1;
        }
        r
    }
}

/// The arguments joined by single spaces, as error messages quote an
/// invocation.
pub open spec fn joined_args(args: Seq<Seq<char>>) -> Seq<char>
    decreases args.len(),
{
    if args.len() == 0 {
        Seq::empty()
    } else if args.len() == 1 {
        args[0]
    } else {
        joined_args(args.drop_last()) + seq![' '] + args.last()
    }
}

/// The view of each string of a vector.
pub open spec fn views(v: Seq<String>) -> Seq<Seq<char>> {
    v.map_values(|s: String| s@)
}

/// The arguments joined by single spaces.
pub fn format_git_args(args: &Vec<String>) -> (r: Vec<char>)
    ensures
        r@ == joined_args(views(args@)),
{
    let mut r: Vec<char> = Vec::new();
    let mut i: usize = 0;
    while i < args.len()
        invariant
            i <= args.len(),
            r@ == joined_args(views(args@).take(i as int)),
        decreases args.len() - i,
    {
        let ghost before = views(args@).take(i as int);
        if i > 0 {
            r.push(' ');
        }
        extend(&mut r, &chars_of(args[i].as_str()));
        proof {
            let after = views(args@).take(i + 1);
            assert(after.drop_last() =~= before);
            assert(after.last() == args@[i as int]@);
            if i == 0 {
                assert(r@ =~= after[0]);
            }
        }
        i += 1;
    }
    assert(views(args@).take(args.len() as int) =~= views(args@));
    r
}

/// The error of a query whose standard output was needed:
/// `git <args> failed for '<path>': <stderr>`.
pub open spec fn stdout_failure(args: Seq<Seq<char>>, path: Seq<char>, err: Seq<char>) -> Seq<
    char,
> {
    "git "@ + joined_args(args) + " failed for '"@ + path + "': "@ + trim(err)
}

/// The standard output of `args` run in `repo_path`, or the error that
/// quotes the invocation when it failed.
pub fn stdout_or_error(args: &Vec<String>, repo_path: &str, output: &GitOutput) -> (r: Result<
    String,
    String,
>)
    ensures
        output.succeeded() ==> (r matches Ok(s) && s@ == output.stdout@),
        !output.succeeded() ==> (r matches Err(e) && e@ == stdout_failure(
            views(args@),
            repo_path@,
            output.stderr@,
        )),
{
    if output.success() {
        Ok(string_of(&chars_of(output.stdout.as_str())))
    } else {
        let mut e = lit("git ");
        extend(&mut e, &format_git_args(args));
        extend(&mut e, &lit(" failed for '"));
        extend(&mut e, &chars_of(repo_path));
        extend(&mut e, &lit("': "));
        extend(&mut e, &stderr(output));
        Err(string_of(&e))
    }
}

/// The arguments as owned strings.
pub fn args_of(args: &Vec<&str>) -> (r: Vec<String>)
    ensures
        r@.len() == args@.len(),
        forall|k: int| 0 <= k < args@.len() ==> #[trigger] r@[k]@ == args@[k]@,
{
    let mut r: Vec<String> = Vec::new();
    let mut i: usize = 0;
    while i < args.len()
        invariant
            i <= args.len(),
            r@.len() == i,
            forall|k: int| 0 <= k < i ==> #[trigger] r@[k]@ == args@[k]@,
        decreases args.len() - i,
    {
        r.push(string_of(&chars_of(args[i])));
        i += 1;
    }
    r
}

/// The query for the branch `HEAD` points to.
pub open spec fn symbolic_query() -> Seq<Seq<char>> {
    seq!["symbolic-ref"@, "--quiet"@, "--short"@, "HEAD"@]
}

/// The query for whether branch `name` has a commit.
pub open spec fn branch_ref_query(name: Seq<char>) -> Seq<Seq<char>> {
    seq!["show-ref"@, "--verify"@, "--quiet"@, "refs/heads/"@ + name]
}

/// The query for the abbreviated commit of a detached `HEAD`.
pub open spec fn short_head_query() -> Seq<Seq<char>> {
    seq!["rev-parse"@, "--short=8"@, "HEAD"@]
}

/// A step of resolving `HEAD`: the next query, or the head, or the error.
pub enum HeadModel {
    Ask(Seq<Seq<char>>),
    Found(HeadView),
    Failed(Seq<char>),
}

/// The next step of resolving the head of the repository at `path` from
/// the answers to the queries so far: `HEAD` names a branch (exit 0),
/// which is unborn unless its ref exists, or `HEAD` is detached (exit 1)
/// and its abbreviated commit is asked for; other answers fail the query.
pub open spec fn head_next(path: Seq<char>, answers: Seq<GitOutput>) -> HeadModel {
    if answers.len() == 0 {
        HeadModel::Ask(symbolic_query())
    } else if answers[0].code == Some(0i32) {
        let name = trim(answers[0].stdout@);
        if answers.len() == 1 {
            HeadModel::Ask(branch_ref_query(name))
        } else if answers[1].code == Some(0i32) {
            HeadModel::Found(HeadView::Branch(name))
        } else if answers[1].code == Some(1i32) {
            HeadModel::Found(HeadView::Unborn(name))
        } else {
            HeadModel::Failed(stdout_failure(branch_ref_query(name), path, answers[1].stderr@))
        }
    } else if answers[0].code == Some(1i32) {
        if answers.len() == 1 {
            HeadModel::Ask(short_head_query())
        } else if answers[1].succeeded() {
            HeadModel::Found(HeadView::Detached(trim(answers[1].stdout@)))
        } else {
            HeadModel::Failed(stdout_failure(short_head_query(), path, answers[1].stderr@))
        }
    } else {
        HeadModel::Failed(stdout_failure(symbolic_query(), path, answers[0].stderr@))
    }
}

/// Resolving `HEAD` takes at most two queries: with two answers it is
/// resolved or has failed.
pub proof fn head_resolves_within_two_queries(path: Seq<char>, answers: Seq<GitOutput>)
    requires
        answers.len() >= 2,
    ensures
        !(head_next(path, answers) is Ask),
{
}

/// Every answer after the second is ignored: resolution depends on the
/// first two answers alone.
pub proof fn head_ignores_extra_answers(path: Seq<char>, answers: Seq<GitOutput>, more: Seq<GitOutput>)
    requires
        answers.len() >= 2,
    ensures
        head_next(path, answers + more) == head_next(path, answers),
{
    assert((answers + more)[0] == answers[0]);
    assert((answers + more)[1] == answers[1]);
}

/// A step of resolving `HEAD`.
pub enum HeadStep {
    Ask(Vec<String>),
    Found(Head),
    Failed(String),
}

impl View for HeadStep {
    type V = HeadModel;

    open spec fn view(&self) -> HeadModel {
        match self {
            HeadStep::Ask(q) => HeadModel::Ask(views(q@)),
            HeadStep::Found(h) => HeadModel::Found(h@),
            HeadStep::Failed(e) => HeadModel::Failed(e@),
        }
    }
}

fn failed_query(args: Vec<String>, path: &str, output: &GitOutput) -> (r: HeadStep)
    ensures
        r@ == HeadModel::Failed(stdout_failure(views(args@), path@, output.stderr@)),
{
    let mut e = lit("git ");
    extend(&mut e, &format_git_args(&args));
    extend(&mut e, &lit(" failed for '"));
    extend(&mut e, &chars_of(path));
    extend(&mut e, &lit("': "));
    extend(&mut e, &stderr(output));
    HeadStep::Failed(string_of(&e))
}

/// The next step of resolving the head of the repository at `repo_path`,
/// from the answers to the queries so far, in order.
pub fn head_step(repo_path: &str, answers: &Vec<GitOutput>) -> (r: HeadStep)
    ensures
        r@ == head_next(repo_path@, answers@),
{
    let symbolic = args_of(&vec!["symbolic-ref", "--quiet", "--short", "HEAD"]);
    assert(views(symbolic@) =~= symbolic_query());
    if answers.len() == 0 {
        return HeadStep::Ask(symbolic);
    }
    let first = &answers[0];
    match first.code {
        Some(0) => {
            let name = trimmed(&chars_of(first.stdout.as_str()));
            let mut r = lit("refs/heads/");
            extend(&mut r, &name);
            let mut q = args_of(&vec!["show-ref", "--verify", "--quiet"]);
            q.push(string_of(&r));
            assert(views(q@) =~= branch_ref_query(name@));
            if answers.len() == 1 {
                return HeadStep::Ask(q);
            }
            match answers[1].code {
                Some(0) => HeadStep::Found(Head::Branch(string_of(&name))),
                Some(1) => HeadStep::Found(Head::Unborn(string_of(&name))),
                _ => failed_query(q, repo_path, &answers[1]),
            }
        },
        Some(1) => {
            let q = args_of(&vec!["rev-parse", "--short=8", "HEAD"]);
            assert(views(q@) =~= short_head_query());
            if answers.len() == 1 {
                return HeadStep::Ask(q);
            }
            if answers[1].success() {
                HeadStep::Found(
                    Head::Detached(string_of(&trimmed(&chars_of(answers[1].stdout.as_str())))),
                )
            } else {
                failed_query(q, repo_path, &answers[1])
            }
        },
        _ => failed_query(symbolic, repo_path, first),
    }
}

/// `s` with every `from` replaced by `to`.
pub open spec fn replace_char(s: Seq<char>, from: char, to: char) -> Seq<char> {
    s.map_values(|c: char| if c == from { to } else { c })
}

/// The path as git spells it: forward slashes, without Windows' verbatim
/// prefix (`//?/`), and with a verbatim UNC root (`//?/UNC/`) kept as `//`.
pub open spec fn spec_git_style_path(path: Seq<char>) -> Seq<char> {
    let p = replace_char(path, '\\', '/');
    if "//?/UNC/"@.is_prefix_of(p) {
        "//"@ + p.skip(8)
    } else if "//?/"@.is_prefix_of(p) {
        p.skip(4)
    } else {
        p
    }
}

/// The path as git spells it.
pub fn git_style_path(path: &str) -> (r: String)
    ensures
        r@ == spec_git_style_path(path@),
{
    let v = chars_of(path);
    let mut p: Vec<char> = Vec::new();
    let mut i: usize = 0;
    while i < v.len()
        invariant
            i <= v.len(),
            p@ == replace_char(v@.take(i as int), '\\', '/'),
        decreases v.len() - i,
    {
        let c = v[i];
        p.push(if c == '\\' { '/' } else { c });
        assert(replace_char(v@.take(i + 1), '\\', '/') =~= replace_char(v@.take(i as int), '\\', '/').push(if c == '\\' { '/' } else { c }));
        i += 1;
    }
    assert(v@.take(v.len() as int) =~= v@);
    let unc = lit("//?/UNC/");
    let verbatim = lit("//?/");
    proof {
        reveal_strlit("//?/UNC/");
        reveal_strlit("//?/");
    }
    if crate::text::starts_with(&p, &unc) {
        let mut r = lit("//");
        extend(&mut r, &crate::text::slice_of(&p, 8, p.len()));
        string_of(&r)
    } else if crate::text::starts_with(&p, &verbatim) {
        string_of(&crate::text::slice_of(&p, 4, p.len()))
    } else {
        string_of(&p)
    }
}

/// `\`, `/`, `?` and the letters of `UNC` as UTF-16 code units.
pub open spec fn backslash() -> u16 { 92 }
pub open spec fn slash() -> u16 { 47 }

/// Windows' verbatim prefix `\\?\` in UTF-16.
pub open spec fn verbatim() -> Seq<u16> {
    seq![92u16, 92u16, 63u16, 92u16]
}

/// Windows' verbatim UNC prefix `\\?\UNC\` in UTF-16.
pub open spec fn verbatim_unc() -> Seq<u16> {
    seq![92u16, 92u16, 63u16, 92u16, 85u16, 78u16, 67u16, 92u16]
}

/// Every backslash of `w` turned into a forward slash.
pub open spec fn forward_slashes(w: Seq<u16>) -> Seq<u16> {
    w.map_values(|u: u16| if u == 92u16 { 47u16 } else { u })
}

/// A wide path as Git for Windows accepts it: without the verbatim prefix,
/// a verbatim UNC root kept as `//`, and forward slashes.
pub open spec fn spec_windows_git_path(w: Seq<u16>) -> Seq<u16> {
    if verbatim_unc().is_prefix_of(w) {
        seq![47u16, 47u16] + forward_slashes(w.skip(8))
    } else if verbatim().is_prefix_of(w) {
        forward_slashes(w.skip(4))
    } else {
        forward_slashes(w)
    }
}

fn wide_prefix(w: &Vec<u16>, p: &Vec<u16>) -> (r: bool)
    ensures
        r == p@.is_prefix_of(w@),
{
    if p.len() > w.len() {
        return false;
    }
    let mut i: usize = 0;
    while i < p.len()
        invariant
            i <= p.len() <= w.len(),
            forall|k: int| 0 <= k < i ==> w@[k] == p@[k],
        decreases p.len() - i,
    {
        if w[i] != p[i] {
            return false;
        }
        i += 1;
    }
    assert(w@.subrange(0, p@.len() as int) =~= p@);
    true
}

/// Removes Windows' verbatim prefix, which Git for Windows does not accept,
/// and uses the forward-slash spelling Git emits.
pub fn windows_git_path(wide: Vec<u16>) -> (r: Vec<u16>)
    ensures
        r@ == spec_windows_git_path(wide@),
{
    let unc: Vec<u16> = vec![92u16, 92u16, 63u16, 92u16, 85u16, 78u16, 67u16, 92u16];
    let plain: Vec<u16> = vec![92u16, 92u16, 63u16, 92u16];
    assert(unc@ =~= verbatim_unc());
    assert(plain@ =~= verbatim());
    let mut r: Vec<u16> = Vec::new();
    let start: usize;
    if wide_prefix(&wide, &unc) {
        r.push(47u16);
        r.push(47u16);
        start = 8;
    } else if wide_prefix(&wide, &plain) {
        start = 4;
    } else {
        start = 0;
    }
    let ghost head = r@;
    let mut i: usize = start;
    while i < wide.len()
        invariant
            start <= i <= wide.len(),
            r@ == head + forward_slashes(wide@.subrange(start as int, i as int)),
        decreases wide.len() - i,
    {
        let u = wide[i];
        r.push(if u == 92u16 { 47u16 } else { u });
        assert(forward_slashes(wide@.subrange(start as int, i + 1)) =~= forward_slashes(
            wide@.subrange(start as int, i as int),
        ).push(if u == 92u16 { 47u16 } else { u }));
        i += 1;
    }
    assert(wide@.subrange(start as int, wide.len() as int) =~= wide@.skip(start as int));
    assert(wide@.skip(0) =~= wide@);
    assert(head + forward_slashes(wide@.skip(start as int)) =~= spec_windows_git_path(wide@));
    r
}

} // verus!
