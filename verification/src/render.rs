//! Rendering shared by the commands: colours, the dim repo-list suffix that
//! names the repositories a line applies to when not all of them share it,
//! grouped lines, and the aggregation of per-repository outcomes.

use crate::git::{OutcomeView, RepoOutcome};
use crate::group::{
    keys, keys_of, members, members_of, names, pair_views, sorted_distinct, sorted_set,
};
use crate::text::{chars_of, copy_chars, extend, lit, string_of};
use vstd::prelude::*;

verus! {

/// The colours output uses.
#[derive(Clone, Copy)]
pub enum Paint {
    /// Green: staged changes.
    Staged,
    /// Red: unstaged changes and untracked files.
    Changed,
    /// Bright black: repo-list suffixes.
    Dim,
}

/// The ANSI code that starts a colour.
pub open spec fn paint_code(p: Paint) -> Seq<char> {
    match p {
        Paint::Staged => "\u{1b}[32m"@,
        Paint::Changed => "\u{1b}[31m"@,
        Paint::Dim => "\u{1b}[90m"@,
    }
}

/// The ANSI code that ends a colour.
pub open spec fn reset_code() -> Seq<char> {
    "\u{1b}[0m"@
}

/// `anstyle::Style::render` of the foreground-only style of `p`: the SGR
/// sequence of its ANSI colour (`ESC [ 32 m` green, `31` red, `90` bright
/// black), as anstyle's `as_fg_str` spells it.
#[verifier::external_body]
fn style_open(p: &Paint) -> (r: String)
    ensures
        r@ == paint_code(*p),
{
    let color = match p {
        Paint::Staged => anstyle::AnsiColor::Green,
        Paint::Changed => anstyle::AnsiColor::Red,
        Paint::Dim => anstyle::AnsiColor::BrightBlack,
    };
    anstyle::Style::new().fg_color(Some(color.into())).render().to_string()
}

/// `anstyle::Style::render_reset` of the foreground-only style of `p`: the
/// reset sequence `ESC [ 0 m`, which anstyle emits for every style other
/// than the plain one.
#[verifier::external_body]
fn style_close(p: &Paint) -> (r: String)
    ensures
        r@ == reset_code(),
{
    let color = match p {
        Paint::Staged => anstyle::AnsiColor::Green,
        Paint::Changed => anstyle::AnsiColor::Red,
        Paint::Dim => anstyle::AnsiColor::BrightBlack,
    };
    anstyle::Style::new().fg_color(Some(color.into())).render_reset().to_string()
}

/// `text` wrapped in the codes of `p`.
pub open spec fn painted(p: Paint, text: Seq<char>) -> Seq<char> {
    paint_code(p) + text + reset_code()
}

/// `text` wrapped in the codes of `p`.
pub fn paint(p: Paint, text: &Vec<char>) -> (r: Vec<char>)
    ensures
        r@ == painted(p, text@),
{
    let mut r = chars_of(style_open(&p).as_str());
    extend(&mut r, text);
    extend(&mut r, &chars_of(style_close(&p).as_str()));
    r
}

/// The decimal digit of `d`.
pub open spec fn digit(d: nat) -> char {
    if d == 0 {
        '0'
    } else if d == 1 {
        '1'
    } else if d == 2 {
        '2'
    } else if d == 3 {
        '3'
    } else if d == 4 {
        '4'
    } else if d == 5 {
        '5'
    } else if d == 6 {
        '6'
    } else if d == 7 {
        '7'
    } else if d == 8 {
        '8'
    } else {
        '9'
    }
}

/// `n` in decimal.
pub open spec fn decimal(n: nat) -> Seq<char>
    decreases n,
{
    if n < 10 {
        seq![digit(n)]
    } else {
        decimal(n / 10).push(digit(n % 10))
    }
}

fn digit_exec(d: usize) -> (c: char)
    requires
        d < 10,
    ensures
        c == digit(d as nat),
{
    if d == 0 {
        '0'
    } else if d == 1 {
        '1'
    } else if d == 2 {
        '2'
    } else if d == 3 {
        '3'
    } else if d == 4 {
        '4'
    } else if d == 5 {
        '5'
    } else if d == 6 {
        '6'
    } else if d == 7 {
        '7'
    } else if d == 8 {
        '8'
    } else {
        '9'
    }
}

/// `n` in decimal.
pub fn decimal_of(n: usize) -> (r: Vec<char>)
    ensures
        r@ == decimal(n as nat),
    decreases n,
{
    if n < 10 {
        vec![digit_exec(n)]
    } else {
        let mut r = decimal_of(n / 10);
        r.push(digit_exec(n % 10));
        r
    }
}

/// The names joined by `", "`.
pub open spec fn comma_list(s: Seq<Seq<char>>) -> Seq<char>
    decreases s.len(),
{
    if s.len() == 0 {
        Seq::empty()
    } else if s.len() == 1 {
        s[0]
    } else {
        comma_list(s.drop_last()) + ", "@ + s.last()
    }
}

/// The names joined by `", "`.
pub fn comma_list_of(s: &Vec<Vec<char>>, count: usize) -> (r: Vec<char>)
    requires
        count <= s.len(),
    ensures
        r@ == comma_list(names(s@).take(count as int)),
{
    let mut r: Vec<char> = Vec::new();
    let mut i: usize = 0;
    while i < count
        invariant
            i <= count <= s.len(),
            r@ == comma_list(names(s@).take(i as int)),
        decreases count - i,
    {
        let ghost before = names(s@).take(i as int);
        if i > 0 {
            extend(&mut r, &lit(", "));
        }
        extend(&mut r, &s[i]);
        proof {
            let after = names(s@).take(i + 1);
            assert(after.drop_last() =~= before);
            assert(after.last() == s@[i as int]@);
            if i == 0 {
                assert(r@ =~= after[0]);
            }
        }
        i += 1;
    }
    r
}

/// The repositories of a line: up to three names, then `+<n>` for the
/// rest.
pub open spec fn repo_list(s: Seq<Seq<char>>) -> Seq<char> {
    if s.len() <= 3 {
        comma_list(s)
    } else {
        comma_list(s.take(3)) + ", +"@ + decimal((s.len() - 3) as nat)
    }
}

/// The suffix naming the repositories a line applies to: empty when all
/// `total` repositories share the line, else a space and the dim,
/// parenthesized, truncated repo list.
pub open spec fn repo_suffix(s: Seq<Seq<char>>, total: nat) -> Seq<char> {
    if s.len() == total {
        Seq::empty()
    } else {
        " "@ + painted(Paint::Dim, "("@ + repo_list(s) + ")"@)
    }
}

/// The suffix naming the repositories `repo_names` among `total`.
pub fn repo_list_suffix(repo_names: &Vec<Vec<char>>, total: usize) -> (r: Vec<char>)
    ensures
        r@ == repo_suffix(names(repo_names@), total as nat),
{
    if repo_names.len() == total {
        return Vec::new();
    }
    let mut inner = lit("(");
    if repo_names.len() <= 3 {
        extend(&mut inner, &comma_list_of(repo_names, repo_names.len()));
        assert(names(repo_names@).take(repo_names.len() as int) =~= names(repo_names@));
    } else {
        extend(&mut inner, &comma_list_of(repo_names, 3));
        extend(&mut inner, &lit(", +"));
        extend(&mut inner, &decimal_of(repo_names.len() - 3));
    }
    extend(&mut inner, &lit(")"));
    let mut r = lit(" ");
    extend(&mut r, &paint(Paint::Dim, &inner));
    r
}

/// One line per distinct key, in key order: the key, then the suffix of
/// the distinct members filed under it.
pub open spec fn key_lines(
    ks: Seq<Seq<char>>,
    pairs: Seq<(Seq<char>, Seq<char>)>,
    total: nat,
) -> Seq<char>
    decreases ks.len(),
{
    if ks.len() == 0 {
        Seq::empty()
    } else {
        key_lines(ks.drop_last(), pairs, total) + ks.last() + repo_suffix(
            sorted_set(members(pairs, ks.last())),
            total,
        ) + "\n"@
    }
}

/// The grouped lines of key-member pairs, keys in order.
pub open spec fn grouped_lines(pairs: Seq<(Seq<char>, Seq<char>)>, total: nat) -> Seq<char> {
    key_lines(sorted_set(keys(pairs)), pairs, total)
}

/// One line per distinct key, in key order, each with the suffix of the
/// members filed under it among `total`.
pub fn grouped_lines_of(pairs: &Vec<(Vec<char>, Vec<char>)>, total: usize) -> (r: Vec<char>)
    ensures
        r@ == grouped_lines(pair_views(pairs@), total as nat),
{
    let ks = sorted_distinct(&keys_of(pairs));
    let mut r: Vec<char> = Vec::new();
    let mut i: usize = 0;
    while i < ks.len()
        invariant
            i <= ks.len(),
            names(ks@) == sorted_set(keys(pair_views(pairs@))),
            r@ == key_lines(names(ks@).take(i as int), pair_views(pairs@), total as nat),
        decreases ks.len() - i,
    {
        let repos = sorted_distinct(&members_of(pairs, &ks[i]));
        extend(&mut r, &ks[i]);
        extend(&mut r, &repo_list_suffix(&repos, total));
        r.push('\n');
        proof {
            let t = names(ks@).take(i + 1);
            assert(t.drop_last() =~= names(ks@).take(i as int));
            assert(t.last() == ks@[i as int]@);
            reveal_strlit("\n");
            assert(r@ =~= key_lines(t, pair_views(pairs@), total as nat));
        }
        i += 1;
    }
    assert(names(ks@).take(ks.len() as int) =~= names(ks@));
    r
}

/// A command's output: what goes to stdout and stderr, and the pager
/// command that stdout is piped into, if any.
pub struct Rendered {
    pub stdout: String,
    pub stderr: String,
    pub pager: Option<Vec<String>>,
}

/// A failed command: what it rendered before failing, and the failure.
pub struct Failed {
    pub rendered: Rendered,
    pub message: String,
}

impl Rendered {
    /// Output that is only `stdout`.
    pub fn from_stdout(stdout: Vec<char>) -> (r: Rendered)
        ensures
            r.stdout@ == stdout@,
            r.stderr@.len() == 0,
            r.pager is None,
    {
        Rendered { stdout: string_of(&stdout), stderr: String::new(), pager: None }
    }
}

/// Why a command did not complete: a failure that keeps what it rendered,
/// or an error that stopped it before it rendered anything.
pub enum RunError {
    Failed(Failed),
    Message(String),
}

/// A failure that keeps what was rendered before it.
pub fn fail(rendered: Rendered, message: String) -> (f: Failed)
    ensures
        f.rendered == rendered,
        f.message == message,
{
    Failed { rendered, message }
}

/// The outcomes as text.
pub open spec fn outcome_views(v: Seq<RepoOutcome>) -> Seq<OutcomeView> {
    v.map_values(|o: RepoOutcome| o@)
}

/// The message-repository pairs of the outcomes of one kind: 0 successes
/// with a message, 1 skips, 2 failures.
pub open spec fn outcome_pairs(outcomes: Seq<OutcomeView>, kind: int) -> Seq<
    (Seq<char>, Seq<char>),
>
    decreases outcomes.len(),
{
    if outcomes.len() == 0 {
        Seq::empty()
    } else {
        let rest = outcome_pairs(outcomes.drop_last(), kind);
        match outcomes.last() {
            OutcomeView::Success { repo, message } => if kind == 0 {
                rest.push((message, repo))
            } else {
                rest
            },
            OutcomeView::Quiet => rest,
            OutcomeView::Skipped { repo, message } => if kind == 1 {
                rest.push((message, repo))
            } else {
                rest
            },
            OutcomeView::Failure { repo, message } => if kind == 2 {
                rest.push((message, repo))
            } else {
                rest
            },
        }
    }
}

/// The outcomes aggregated over `total` repositories: success messages to
/// stdout and skip reasons to stderr, one line per distinct message in
/// message order with the suffix of the repositories that reported it;
/// any failure fails the command with the failure lines as its message,
/// keeping what the others rendered.
pub open spec fn aggregate(outcomes: Seq<OutcomeView>, total: nat) -> (Seq<char>, Seq<char>, Seq<
    char,
>) {
    let failures = grouped_lines(outcome_pairs(outcomes, 2), total);
    (
        grouped_lines(outcome_pairs(outcomes, 0), total),
        grouped_lines(outcome_pairs(outcomes, 1), total),
        if failures.len() > 0 {
            failures.drop_last()
        } else {
            failures
        },
    )
}

fn pairs_of_kind(outcomes: &Vec<RepoOutcome>, kind: u8) -> (r: Vec<(Vec<char>, Vec<char>)>)
    ensures
        pair_views(r@) == outcome_pairs(outcome_views(outcomes@), kind as int),
{
    let mut r: Vec<(Vec<char>, Vec<char>)> = Vec::new();
    let mut i: usize = 0;
    while i < outcomes.len()
        invariant
            i <= outcomes.len(),
            pair_views(r@) == outcome_pairs(outcome_views(outcomes@.take(i as int)), kind as int),
        decreases outcomes.len() - i,
    {
        let ghost before = pair_views(r@);
        proof {
            assert(outcomes@.take(i + 1).drop_last() =~= outcomes@.take(i as int));
            assert(outcome_views(outcomes@.take(i + 1)).drop_last() =~= outcome_views(
                outcomes@.take(i as int),
            ));
            assert(outcome_views(outcomes@.take(i + 1)).last() == outcomes@[i as int]@);
        }
        match &outcomes[i] {
            RepoOutcome::Success(Some(m)) => {
                if kind == 0 {
                    r.push((chars_of(m.message.as_str()), chars_of(m.repo.as_str())));
                }
            },
            RepoOutcome::Success(None) => {},
            RepoOutcome::Skipped(m) => {
                if kind == 1 {
                    r.push((chars_of(m.message.as_str()), chars_of(m.repo.as_str())));
                }
            },
            RepoOutcome::Failure(m) => {
                if kind == 2 {
                    r.push((chars_of(m.message.as_str()), chars_of(m.repo.as_str())));
                }
            },
        }
        assert(pair_views(r@) =~= outcome_pairs(outcome_views(outcomes@.take(i + 1)), kind as int));
        i += 1;
    }
    assert(outcomes@.take(outcomes.len() as int) =~= outcomes@);
    r
}

/// The outcomes of a command run over `total` repositories, aggregated:
/// `Ok` when none failed, else `Err` carrying the failure lines and what
/// the successes and skips rendered.
pub fn outcomes(results: &Vec<RepoOutcome>, total: usize) -> (r: Result<Rendered, Failed>)
    ensures
        ({
            let (out, err, failures) = aggregate(outcome_views(results@), total as nat);
            match r {
                Ok(rendered) => outcome_pairs(outcome_views(results@), 2).len() == 0 && rendered.stdout@ == out
                    && rendered.stderr@ == err && rendered.pager is None,
                Err(f) => outcome_pairs(outcome_views(results@), 2).len() > 0 && f.message@ == failures
                    && f.rendered.stdout@
                    == out && f.rendered.stderr@ == err && f.rendered.pager is None,
            }
        }),
{
    let ok_pairs = pairs_of_kind(results, 0);
    let skip_pairs = pairs_of_kind(results, 1);
    let fail_pairs = pairs_of_kind(results, 2);
    let out = grouped_lines_of(&ok_pairs, total);
    let err = grouped_lines_of(&skip_pairs, total);
    let mut failures = grouped_lines_of(&fail_pairs, total);
    let ghost all = failures@;
    let ghost expected = aggregate(outcome_views(results@), total as nat);
    assert(out@ == expected.0);
    assert(err@ == expected.1);
    let rendered = Rendered { stdout: string_of(&out), stderr: string_of(&err), pager: None };
    if fail_pairs.len() > 0 {
        if failures.len() > 0 {
            failures.pop();
        }
        assert(failures@ =~= expected.2);
        Err(Failed { rendered, message: string_of(&failures) })
    } else {
        Ok(rendered)
    }
}

} // verus!
