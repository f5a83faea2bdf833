//! `diff`: the combined diff of the child repositories, as one patch that
//! applies from the virtual monorepo's root.
//!
//! Each child's diff is taken with `a/<repo>/` and `b/<repo>/` prefixes;
//! the rename and copy header lines, which git never prefixes, get the
//! repository prefix here. The diffs are concatenated in repository order,
//! and failures aggregate below them.

use crate::git::{args_of, failure_message, views, GitOutput, OutcomeView, Repo, RepoOutcome};
use crate::render::{aggregate, fail, outcome_pairs, outcome_views, outcomes, Failed, Rendered};
use crate::report::{command_result, detailed_message, FailureReport, SuccessReport};
use crate::text::{
    chars_of, extend, find_char, find_from, lemma_find_from, lit, same, slice_of, starts_with,
    string_of, trim, trimmed,
};
use vstd::prelude::*;

verus! {

/// When to colour the output.
#[derive(Clone, Copy)]
pub enum ColorWhen {
    Auto,
    Always,
    Never,
}

/// The colour value children receive.
#[derive(Clone, Copy)]
pub enum ResolvedColor {
    Always,
    Never,
}

/// Show changes between the working trees and index.
pub struct DiffArgs {
    /// Show changes between the indexes and HEAD
    pub staged: bool,
    /// When to colour the output; bare --color means always
    pub color: ColorWhen,
    /// Do not pipe the output into a pager
    pub no_pager: bool,
    /// Limit the diff to the given paths
    pub paths: Vec<String>,
}

/// `auto` resolves to `always` exactly on a terminal that renders escape
/// sequences; explicit choices pass through.
pub open spec fn color_of(color: ColorWhen, stdout_is_tty: bool, stdout_supports_color: bool) -> ResolvedColor {
    match color {
        ColorWhen::Always => ResolvedColor::Always,
        ColorWhen::Never => ResolvedColor::Never,
        ColorWhen::Auto => if stdout_is_tty && stdout_supports_color {
            ResolvedColor::Always
        } else {
            ResolvedColor::Never
        },
    }
}

/// The colour value children receive.
pub fn resolve_color(color: ColorWhen, stdout_is_tty: bool, stdout_supports_color: bool) -> (r:
    ResolvedColor)
    ensures
        r == color_of(color, stdout_is_tty, stdout_supports_color),
{
    match color {
        ColorWhen::Always => ResolvedColor::Always,
        ColorWhen::Never => ResolvedColor::Never,
        ColorWhen::Auto => if stdout_is_tty && stdout_supports_color {
            ResolvedColor::Always
        } else {
            ResolvedColor::Never
        },
    }
}

/// The name of a resolved colour.
pub open spec fn color_name(c: ResolvedColor) -> Seq<char> {
    match c {
        ResolvedColor::Always => "always"@,
        ResolvedColor::Never => "never"@,
    }
}

/// The name of a resolved colour.
pub fn resolved_color_name(c: ResolvedColor) -> (r: Vec<char>)
    ensures
        r@ == color_name(c),
{
    match c {
        ResolvedColor::Always => lit("always"),
        ResolvedColor::Never => lit("never"),
    }
}

/// Paging is active when stdout is a terminal and `--no-pager` is absent.
pub fn paging_active(no_pager: bool, stdout_is_tty: bool) -> (r: bool)
    ensures
        r == (stdout_is_tty && !no_pager),
{
    stdout_is_tty && !no_pager
}

/// What a `git var` lookup gives: nothing when it failed or the value is
/// blank, else the trimmed value.
pub open spec fn var_value(output: GitOutput) -> Option<Seq<char>> {
    if !output.succeeded() || trim(output.stdout@).len() == 0 {
        None
    } else {
        Some(trim(output.stdout@))
    }
}

/// The arguments of a `git var` lookup.
pub fn git_var_args(name: &str) -> (r: Vec<String>)
    ensures
        views(r@) == seq!["var"@, name@],
{
    let r = args_of(&vec!["var", name]);
    assert(views(r@) =~= seq!["var"@, name@]);
    r
}

/// The value a `git var` lookup gives.
pub fn git_var(output: &GitOutput) -> (r: Option<String>)
    ensures
        match var_value(*output) {
            Some(v) => r matches Some(s) && s@ == v,
            None => r is None,
        },
{
    if !output.success() {
        return None;
    }
    let v = trimmed(&chars_of(output.stdout.as_str()));
    if v.len() == 0 {
        None
    } else {
        Some(string_of(&v))
    }
}

/// Whether the pager's shell is needed: the pager lookup gave a command
/// other than `cat`.
pub open spec fn pages(pager: Option<Seq<char>>) -> bool {
    pager matches Some(p) && p != "cat"@
}

/// Whether the shell lookup is needed after the pager lookup.
pub fn needs_shell(pager: &Option<String>) -> (r: bool)
    ensures
        r == pages(match pager {
            Some(p) => Some(p@),
            None => None,
        }),
{
    match pager {
        Some(p) => {
            proof {
                reveal_strlit("cat");
            }
            !same(&chars_of(p.as_str()), &lit("cat"))
        },
        None => false,
    }
}

/// The pager argv: `[<shell>, "-c", <pager>]`, the shell `sh` when its
/// lookup gave nothing; no paging when the pager is unknown or `cat`.
pub fn pager_command(pager: Option<String>, shell: Option<String>) -> (r: Option<Vec<String>>)
    ensures
        !pages(match pager {
            Some(p) => Some(p@),
            None => None,
        }) ==> r is None,
        pages(match pager {
            Some(p) => Some(p@),
            None => None,
        }) ==> (r matches Some(v) && v@.len() == 3 && v@[0]@ == match shell {
            Some(s) => s@,
            None => "sh"@,
        } && v@[1]@ == "-c"@ && v@[2]@ == pager->0@),
{
    if !needs_shell(&pager) {
        return None;
    }
    let p = match pager {
        Some(p) => p,
        None => {
            return None;
        },
    };
    let s = match shell {
        Some(s) => s,
        None => string_of(&lit("sh")),
    };
    Some(vec![s, string_of(&lit("-c")), p])
}

/// The index just past the SGR escape sequences (`ESC [ ... m`) that start
/// at `i`.
pub open spec fn sgr_end(line: Seq<char>, i: int) -> int
    decreases line.len() - i,
{
    if 0 <= i && i + 1 < line.len() && line[i] == '\x1b' && line[i + 1] == '[' {
        match find_from(line, 'm', i + 2) {
            Some(e) => {
                proof {
                    lemma_find_from(line, 'm', i + 2);
                }
                sgr_end(line, e + 1)
            },
            None => i,
        }
    } else {
        i
    }
}

proof fn lemma_sgr_end(line: Seq<char>, i: int)
    requires
        0 <= i <= line.len(),
    ensures
        i <= sgr_end(line, i) <= line.len(),
    decreases line.len() - i,
{
    if i + 1 < line.len() && line[i] == '\x1b' && line[i + 1] == '[' {
        lemma_find_from(line, 'm', i + 2);
        match find_from(line, 'm', i + 2) {
            Some(e) => lemma_sgr_end(line, e + 1),
            None => {},
        }
    }
}

/// The index just past any leading SGR escape sequences, so coloured
/// header lines match the same prefixes as plain ones.
pub fn after_leading_sgr(line: &Vec<char>) -> (r: usize)
    ensures
        r == sgr_end(line@, 0),
        r <= line@.len(),
{
    let mut index: usize = 0;
    let mut done = false;
    proof {
        lemma_sgr_end(line@, 0);
    }
    while !done && line.len() > 0 && index < line.len() - 1 && line[index] == '\x1b' && line[index + 1]
        == '['
        invariant
            index <= line@.len(),
            !done ==> sgr_end(line@, 0) == sgr_end(line@, index as int),
            done ==> sgr_end(line@, 0) == index,
        decreases line.len() + 1 - index - (if done { 1int } else { 0int }),
    {
        match find_char(line, 'm', index + 2) {
            Some(e) => {
                proof {
                    lemma_find_from(line@, 'm', index + 2);
                }
                index = e + 1;
            },
            None => {
                done = true;
            },
        }
    }
    index
}

/// The rename and copy keyword `text` starts with, if any.
pub open spec fn keyword_of(text: Seq<char>) -> Option<Seq<char>> {
    if "rename from "@.is_prefix_of(text) {
        Some("rename from "@)
    } else if "rename to "@.is_prefix_of(text) {
        Some("rename to "@)
    } else if "copy from "@.is_prefix_of(text) {
        Some("copy from "@)
    } else if "copy to "@.is_prefix_of(text) {
        Some("copy to "@)
    } else {
        None
    }
}

/// One line of a diff rewritten, and whether the lines after it are in a
/// file block's extended headers: a `diff --git` line opens the headers,
/// an `@@` line closes them, and inside them a rename or copy line gets
/// `<repo>/` at the start of its path, inside the quotes of a quoted one.
pub open spec fn rewrite_line(line: Seq<char>, in_headers: bool, repo: Seq<char>) -> (Seq<char>, bool) {
    let start = sgr_end(line, 0);
    let text = line.skip(start);
    if "diff --git "@.is_prefix_of(text) {
        (line, true)
    } else if "@@"@.is_prefix_of(text) {
        (line, false)
    } else if in_headers && keyword_of(text) is Some {
        let at = start + keyword_of(text)->0.len();
        let at = if at < line.len() && line[at] == '"' {
            at + 1
        } else {
            at
        };
        (line.take(at) + repo + "/"@ + line.skip(at), in_headers)
    } else {
        (line, in_headers)
    }
}

/// The end of the line that starts at `pos`: just past its newline, or
/// the end of the text.
pub open spec fn line_end(s: Seq<char>, pos: int) -> int {
    match find_from(s, '\n', pos) {
        Some(e) => e + 1,
        None => s.len() as int,
    }
}

/// The diff from `pos` on, its lines rewritten in turn.
pub open spec fn rewrite_from(s: Seq<char>, pos: int, in_headers: bool, repo: Seq<char>) -> Seq<char>
    decreases s.len() - pos,
{
    if pos < 0 || pos >= s.len() {
        Seq::empty()
    } else {
        let end = line_end(s, pos);
        proof {
            lemma_find_from(s, '\n', pos);
        }
        let (piece, next) = rewrite_line(s.subrange(pos, end), in_headers, repo);
        piece + rewrite_from(s, end, next, repo)
    }
}

/// A child's diff with the repository prefix on its rename and copy
/// header paths, which `--src-prefix` and `--dst-prefix` do not reach.
pub open spec fn rewritten(diff: Seq<char>, repo: Seq<char>) -> Seq<char> {
    rewrite_from(diff, 0, false, repo)
}

fn keyword(text: &Vec<char>) -> (r: Option<Vec<char>>)
    ensures
        match keyword_of(text@) {
            Some(k) => r matches Some(v) && v@ == k,
            None => r is None,
        },
{
    let k1 = lit("rename from ");
    if starts_with(text, &k1) {
        return Some(k1);
    }
    let k2 = lit("rename to ");
    if starts_with(text, &k2) {
        return Some(k2);
    }
    let k3 = lit("copy from ");
    if starts_with(text, &k3) {
        return Some(k3);
    }
    let k4 = lit("copy to ");
    if starts_with(text, &k4) {
        return Some(k4);
    }
    None
}

fn rewrite_one(out: &mut Vec<char>, line: &Vec<char>, in_headers: bool, repo: &Vec<char>) -> (r:
    bool)
    ensures
        final(out)@ == old(out)@ + rewrite_line(line@, in_headers, repo@).0,
        r == rewrite_line(line@, in_headers, repo@).1,
{
    let start = after_leading_sgr(line);
    let text = slice_of(line, start, line.len());
    assert(text@ =~= line@.skip(start as int));
    if starts_with(&text, &lit("diff --git ")) {
        extend(out, line);
        return true;
    }
    if starts_with(&text, &lit("@@")) {
        extend(out, line);
        return false;
    }
    if in_headers {
        match keyword(&text) {
            Some(k) => {
                let mut at = start + k.len();
                if at < line.len() && line[at] == '"' {
                    at = at + 1;
                }
                extend(out, &slice_of(line, 0, at));
                extend(out, repo);
                out.push('/');
                extend(out, &slice_of(line, at, line.len()));
                proof {
                    reveal_strlit("/");
                    assert(line@.subrange(0, at as int) =~= line@.take(at as int));
                    assert(line@.subrange(at as int, line@.len() as int) =~= line@.skip(at as int));
                    assert(final(out)@ =~= old(out)@ + rewrite_line(line@, in_headers, repo@).0);
                }
                return in_headers;
            },
            None => {},
        }
    }
    extend(out, line);
    in_headers
}

/// Prepends `<repo>/` to the path of the `rename from`, `rename to`, `copy
/// from` and `copy to` lines inside each file block's extended headers
/// (from a `diff --git` line to the first `@@`); a C-quoted path gets the
/// prefix just inside its opening quote, and SGR colour codes that wrap a
/// header line are skipped.
pub fn rewrite_rename_headers(diff: &str, repo: &str) -> (r: String)
    ensures
        r@ == rewritten(diff@, repo@),
{
    let s = chars_of(diff);
    let name = chars_of(repo);
    let mut out: Vec<char> = Vec::new();
    let mut in_headers = false;
    let mut pos: usize = 0;
    while pos < s.len()
        invariant
            pos <= s.len(),
            name@ == repo@,
            out@ + rewrite_from(s@, pos as int, in_headers, name@) == rewritten(s@, name@),
        decreases s.len() - pos,
    {
        proof {
            lemma_find_from(s@, '\n', pos as int);
        }
        let end = match find_char(&s, '\n', pos) {
            Some(e) => e + 1,
            None => s.len(),
        };
        assert(end == line_end(s@, pos as int));
        let line = slice_of(&s, pos, end);
        let ghost before = out@;
        let ghost was = in_headers;
        in_headers = rewrite_one(&mut out, &line, in_headers, &name);
        proof {
            let (piece, next) = rewrite_line(line@, was, name@);
            assert(rewrite_from(s@, pos as int, was, name@) == piece + rewrite_from(
                s@,
                end as int,
                next,
                name@,
            ));
            assert(before + (piece + rewrite_from(s@, end as int, next, name@)) =~= out@
                + rewrite_from(s@, end as int, next, name@));
        }
        pos = end;
    }
    assert(out@ + rewrite_from(s@, pos as int, in_headers, name@) =~= out@);
    string_of(&out)
}

/// The arguments of one child's diff: the staged flag, the repository
/// prefixes (with the trailing slash git concatenates verbatim), the
/// resolved colour, plumbing that keeps the patch applicable, and the
/// paths after `--`.
pub open spec fn diff_query(
    name: Seq<char>,
    staged: bool,
    color: ResolvedColor,
    paths: Seq<Seq<char>>,
) -> Seq<Seq<char>> {
    seq!["diff"@] + (if staged {
        seq!["--staged"@]
    } else {
        Seq::empty()
    }) + seq![
        "--src-prefix=a/"@ + name + "/"@,
        "--dst-prefix=b/"@ + name + "/"@,
        "--color="@ + color_name(color),
        "--no-ext-diff"@,
        "--no-textconv"@,
        "--binary"@,
        "--"@,
    ] + paths
}

/// A child's diff compares the index exactly when asked: `--staged` is
/// passed only with `staged` (paths aside), and the paths follow `--`.
pub proof fn diff_staged_exactly_when_asked(
    name: Seq<char>,
    staged: bool,
    color: ResolvedColor,
    paths: Seq<Seq<char>>,
)
    requires
        !paths.contains("--staged"@),
    ensures
        diff_query(name, staged, color, paths).contains("--staged"@) == staged,
        diff_query(name, staged, color, paths).skip(
            diff_query(name, staged, color, paths).len() - paths.len() - 1,
        ) == seq!["--"@] + paths,
{
    broadcast use vstd::seq_lib::lemma_seq_concat_contains_all_elements;

    let x = "--staged"@;
    reveal_strlit("diff");
    reveal_strlit("--staged");
    reveal_strlit("--src-prefix=a/");
    reveal_strlit("--dst-prefix=b/");
    reveal_strlit("--color=");
    reveal_strlit("--no-ext-diff");
    reveal_strlit("--no-textconv");
    reveal_strlit("--binary");
    reveal_strlit("--");
    let mid = seq![
        "--src-prefix=a/"@ + name + "/"@,
        "--dst-prefix=b/"@ + name + "/"@,
        "--color="@ + color_name(color),
        "--no-ext-diff"@,
        "--no-textconv"@,
        "--binary"@,
        "--"@,
    ];
    assert(!mid.contains(x)) by {
        if mid.contains(x) {
            let i = choose|i: int| 0 <= i < mid.len() && mid[i] == x;
            if i == 0 {
                assert(mid[0][3] == 'r');
            } else if i == 1 {
                assert(mid[1][2] == 'd');
            } else if i == 2 {
                assert(mid[2][2] == 'c');
            } else if i == 3 {
                assert(mid[3].len() != x.len());
            } else if i == 4 {
                assert(mid[4].len() != x.len());
            } else if i == 5 {
                assert(mid[5][2] == 'b');
            } else {
                assert(mid[6].len() != x.len());
            }
        }
    }
    assert(!seq!["diff"@].contains(x)) by {
        if seq!["diff"@].contains(x) {
            assert(seq!["diff"@][0].len() != x.len());
        }
    }
    let st = if staged {
        seq![x]
    } else {
        Seq::<Seq<char>>::empty()
    };
    if staged {
        assert(st[0] == x);
    }
    let q = diff_query(name, staged, color, paths);
    assert(q == seq!["diff"@] + st + mid + paths);
    assert(q.skip(q.len() - paths.len() - 1) =~= seq!["--"@] + paths);
}

fn push_arg(args: &mut Vec<String>, a: Vec<char>)
    ensures
        views(final(args)@) == views(old(args)@).push(a@),
{
    args.push(string_of(&a));
    assert(views(final(args)@) =~= views(old(args)@).push(a@));
}

fn joined3(a: &str, b: &Vec<char>, c: &str) -> (r: Vec<char>)
    ensures
        r@ == a@ + b@ + c@,
{
    let mut r = lit(a);
    extend(&mut r, b);
    extend(&mut r, &lit(c));
    r
}

/// The arguments of one child's diff.
pub fn diff_invocation(repo_name: &str, staged: bool, color: ResolvedColor, paths: &Vec<String>) -> (r:
    Vec<String>)
    ensures
        views(r@) == diff_query(repo_name@, staged, color, views(paths@)),
{
    let name = chars_of(repo_name);
    let mut args: Vec<String> = Vec::new();
    push_arg(&mut args, lit("diff"));
    if staged {
        push_arg(&mut args, lit("--staged"));
    }
    push_arg(&mut args, joined3("--src-prefix=a/", &name, "/"));
    push_arg(&mut args, joined3("--dst-prefix=b/", &name, "/"));
    let mut c = lit("--color=");
    extend(&mut c, &resolved_color_name(color));
    push_arg(&mut args, c);
    push_arg(&mut args, lit("--no-ext-diff"));
    push_arg(&mut args, lit("--no-textconv"));
    push_arg(&mut args, lit("--binary"));
    push_arg(&mut args, lit("--"));
    let ghost head = views(args@);
    let mut i: usize = 0;
    while i < paths.len()
        invariant
            i <= paths.len(),
            views(args@) == head + views(paths@).take(i as int),
        decreases paths.len() - i,
    {
        push_arg(&mut args, chars_of(paths[i].as_str()));
        assert(views(paths@).take(i + 1) =~= views(paths@).take(i as int).push(paths@[i as int]@));
        assert(views(args@) =~= head + views(paths@).take(i + 1));
        i += 1;
    }
    assert(views(paths@).take(paths.len() as int) =~= views(paths@));
    assert(views(args@) =~= diff_query(repo_name@, staged, color, views(paths@)));
    args
}

/// The error of diff output that is not UTF-8.
pub open spec fn non_utf8_message(path: Seq<char>, error: Seq<char>) -> Seq<char> {
    "git diff produced non-UTF-8 output for '"@ + path + "': "@ + error
}

/// One child's diff from its output (`decoded` is its standard output as
/// UTF-8, or the decoding error): on success the rewritten diff and a
/// quiet outcome, unless the output is not UTF-8, which fails the
/// repository; on failure no diff and the detailed failure.
pub fn repo_diff(repo: &Repo, output: &GitOutput, decoded: &Result<String, String>) -> (r: (
    String,
    RepoOutcome,
))
    ensures
        output.succeeded() ==> match decoded {
            Ok(d) => r.0@ == rewritten(d@, repo.name@) && r.1@ == OutcomeView::Quiet,
            Err(e) => r.0@.len() == 0 && r.1@ == (OutcomeView::Failure {
                repo: repo.name@,
                message: non_utf8_message(repo.path@, e@),
            }),
        },
        !output.succeeded() ==> r.0@.len() == 0 && r.1@ == (OutcomeView::Failure {
            repo: repo.name@,
            message: detailed_message("diff"@, repo.path@, output.stderr@),
        }),
{
    let diff = if output.success() {
        match decoded {
            Ok(d) => rewrite_rename_headers(d.as_str(), repo.name.as_str()),
            Err(e) => {
                let mut m = lit("git diff produced non-UTF-8 output for '");
                extend(&mut m, &chars_of(repo.path.as_str()));
                extend(&mut m, &lit("': "));
                extend(&mut m, &chars_of(e.as_str()));
                return (String::new(), failure_message(repo.name.as_str(), string_of(&m)));
            },
        }
    } else {
        String::new()
    };
    let result = command_result(repo, output, SuccessReport::quiet(), FailureReport::detailed("diff"));
    proof {
        reveal_strlit("diff");
    }
    (diff, result)
}

/// The concatenation of the diffs.
pub open spec fn concatenated(diffs: Seq<String>) -> Seq<char>
    decreases diffs.len(),
{
    if diffs.len() == 0 {
        Seq::empty()
    } else {
        concatenated(diffs.drop_last()) + diffs.last()@
    }
}

/// The combined diff: the children's diffs concatenated in repository
/// order with no separators, carrying the pager; the outcomes of the
/// `results.len()` diffed repositories aggregate below, and any failure
/// fails the command while the surviving diffs still print.
pub fn run(diffs: &Vec<String>, results: &Vec<RepoOutcome>, pager: Option<Vec<String>>) -> (r:
    Result<Rendered, Failed>)
    requires
        diffs@.len() == results@.len(),
    ensures
        ({
            let (out, err, failures) = aggregate(outcome_views(results@), results@.len() as nat);
            match r {
                Ok(x) => outcome_pairs(outcome_views(results@), 2).len() == 0 && x.stdout@ == concatenated(
                    diffs@,
                ) && x.stderr@ == err && x.pager == pager,
                Err(f) => outcome_pairs(outcome_views(results@), 2).len() > 0 && f.message@ == failures
                    && f.rendered.stdout@ == concatenated(diffs@) && f.rendered.stderr@ == err
                    && f.rendered.pager == pager,
            }
        }),
{
    let mut combined: Vec<char> = Vec::new();
    let mut i: usize = 0;
    while i < diffs.len()
        invariant
            i <= diffs.len(),
            combined@ == concatenated(diffs@.take(i as int)),
        decreases diffs.len() - i,
    {
        extend(&mut combined, &chars_of(diffs[i].as_str()));
        assert(diffs@.take(i + 1).drop_last() =~= diffs@.take(i as int));
        i += 1;
    }
    assert(diffs@.take(diffs.len() as int) =~= diffs@);
    match outcomes(results, results.len()) {
        Ok(rendered) => Ok(Rendered { stdout: string_of(&combined), stderr: rendered.stderr, pager }),
        Err(failed) => Err(
            fail(
                Rendered { stdout: string_of(&combined), stderr: failed.rendered.stderr, pager },
                failed.message,
            ),
        ),
    }
}

/// Colour and paging follow the same terminal fact: on a terminal that
/// renders escapes, `auto` colours exactly when the output pages (absent
/// `--no-pager`), and off a terminal neither happens.
pub proof fn auto_colour_follows_paging(stdout_is_tty: bool)
    ensures
        (color_of(ColorWhen::Auto, stdout_is_tty, true) is Always) == (stdout_is_tty && !false),
        !stdout_is_tty ==> color_of(ColorWhen::Auto, stdout_is_tty, true) is Never,
{
}

/// No line from `pos` on opens a file block (`diff --git`, after any
/// leading SGR sequences).
pub open spec fn no_file_blocks(s: Seq<char>, pos: int) -> bool
    decreases s.len() - pos,
{
    if pos < 0 || pos >= s.len() {
        true
    } else {
        let end = line_end(s, pos);
        proof {
            lemma_find_from(s, '\n', pos);
        }
        let line = s.subrange(pos, end);
        !"diff --git "@.is_prefix_of(line.skip(sgr_end(line, 0))) && no_file_blocks(s, end)
    }
}

/// Outside file headers nothing is rewritten: text in which no line opens
/// a file block comes back unchanged.
pub proof fn rewrite_keeps_text_without_file_blocks(s: Seq<char>, pos: int, repo: Seq<char>)
    requires
        0 <= pos <= s.len(),
        no_file_blocks(s, pos),
    ensures
        rewrite_from(s, pos, false, repo) == s.skip(pos),
    decreases s.len() - pos,
{
    if pos < s.len() {
        lemma_find_from(s, '\n', pos);
        let end = line_end(s, pos);
        rewrite_keeps_text_without_file_blocks(s, end, repo);
        let line = s.subrange(pos, end);
        assert(rewrite_line(line, false, repo) == (line, false));
        assert(line + s.skip(end) =~= s.skip(pos));
    } else {
        assert(s.skip(pos) =~= Seq::<char>::empty());
    }
}

/// A diff without file blocks is unchanged by the rewrite.
pub proof fn rewritten_without_file_blocks_is_unchanged(diff: Seq<char>, repo: Seq<char>)
    requires
        no_file_blocks(diff, 0),
    ensures
        rewritten(diff, repo) == diff,
{
    rewrite_keeps_text_without_file_blocks(diff, 0, repo);
    assert(diff.skip(0) =~= diff);
}

} // verus!
