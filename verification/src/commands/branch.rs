//! `branch`: list the branches of the child repositories, grouped by name,
//! or create or delete a branch in each of them.

use crate::commands::tag::{listing_views, tag_pairs};
use crate::git::{args_of, stdout_failure, stdout_or_error, views, GitOutput, Head, HeadView, OutcomeView, Repo, RepoOutcome};
use crate::group::{keys, keys_of, members, members_of, names, pair_views, sorted_distinct, sorted_set};
use crate::render::{
    aggregate, comma_list, comma_list_of, outcome_pairs, outcome_views, outcomes, Rendered, RunError,
};
use crate::report::{
    command_result, reported_outcome, FailureModel, FailureReport, OnEmpty, Streams,
    SuccessModel, SuccessReport,
};
use crate::text::{chars_of, copy_chars, extend, less_than, lex_lt, lines, lines_of, lit, same, string_of};
use vstd::prelude::*;

verus! {

/// List, create, or delete branches.
pub struct BranchArgs {
    /// Delete a branch. The branch must be fully merged in its upstream
    /// branch
    pub delete: bool,
    /// Shortcut for `--delete --force`
    pub force_delete: bool,
    /// With `--delete`, allow deleting the branch irrespective of its
    /// merged status, or whether it even points to a valid commit
    pub force: bool,
    /// Creates a new branch head named [branch-name] which points to the
    /// current HEAD
    pub branch_name: Option<String>,
}

/// What a `branch` invocation asks for.
pub enum BranchAction {
    List,
    Create(String),
    Delete { branch_name: String, force: bool },
}

impl BranchArgs {
    /// What the arguments ask for: a name with `--delete` or `-D` deletes
    /// the branch (forcibly with `--force` or `-D`), a name alone creates
    /// it, no name lists the branches.
    pub fn action(&self) -> (r: BranchAction)
        ensures
            match self.branch_name {
                Some(n) => if self.delete || self.force_delete {
                    r matches BranchAction::Delete { branch_name, force } && branch_name@ == n@
                        && force == (self.force || self.force_delete)
                } else {
                    r matches BranchAction::Create(m) && m@ == n@
                },
                None => r is List,
            },
    {
        match &self.branch_name {
            Some(n) => if self.delete || self.force_delete {
                BranchAction::Delete {
                    branch_name: string_of(&chars_of(n.as_str())),
                    force: self.force || self.force_delete,
                }
            } else {
                BranchAction::Create(string_of(&chars_of(n.as_str())))
            },
            None => BranchAction::List,
        }
    }
}

/// The branches of one repository and its head.
pub struct RepoBranches {
    pub branches: Vec<String>,
    pub head: Head,
}

/// The arguments of the branch listing query.
pub open spec fn branches_query() -> Seq<Seq<char>> {
    seq!["for-each-ref"@, "--format=%(refname:short)"@, "refs/heads"@]
}

/// The arguments of what `action` runs in each child repository: the
/// branch listing query, `branch <name>`, or `branch -d <name>` (`-D` when
/// forced).
pub open spec fn branch_query(action: BranchAction) -> Seq<Seq<char>> {
    match action {
        BranchAction::List => branches_query(),
        BranchAction::Create(n) => seq!["branch"@, n@],
        BranchAction::Delete { branch_name, force } => seq![
            "branch"@,
            if force {
                "-D"@
            } else {
                "-d"@
            },
            branch_name@,
        ],
    }
}

/// Deleting a branch forces the deletion exactly when asked: `-D`, which
/// drops unmerged commits, only when `force`, else `-d`, which git refuses
/// for an unmerged branch; the branch named is the one deleted.
pub proof fn delete_forces_exactly_when_asked(branch_name: String, force: bool)
    requires
        branch_name@ != "-D"@,
        branch_name@ != "-d"@,
    ensures
        branch_query(BranchAction::Delete { branch_name, force }).contains("-D"@) == force,
        branch_query(BranchAction::Delete { branch_name, force }).contains("-d"@) == !force,
        branch_query(BranchAction::Delete { branch_name, force }).len() == 3,
        branch_query(BranchAction::Delete { branch_name, force })[0] == "branch"@,
        branch_query(BranchAction::Delete { branch_name, force })[2] == branch_name@,
{
    reveal_strlit("-D");
    reveal_strlit("-d");
    reveal_strlit("branch");
    let q = branch_query(BranchAction::Delete { branch_name, force });
    assert("-D"@[1] != "-d"@[1]);
    assert("branch"@.len() != "-D"@.len() && "branch"@.len() != "-d"@.len());
    if force {
        assert(q[1] == "-D"@);
        assert(!q.contains("-d"@)) by {
            if q.contains("-d"@) {
                let i = choose|i: int| 0 <= i < q.len() && q[i] == "-d"@;
                assert(i == 0 || i == 1 || i == 2);
            }
        }
    } else {
        assert(q[1] == "-d"@);
        assert(!q.contains("-D"@)) by {
            if q.contains("-D"@) {
                let i = choose|i: int| 0 <= i < q.len() && q[i] == "-D"@;
                assert(i == 0 || i == 1 || i == 2);
            }
        }
    }
}

/// The arguments of what `action` runs in each child repository.
pub fn invocation(action: &BranchAction) -> (r: Vec<String>)
    ensures
        views(r@) == branch_query(*action),
{
    let r = match action {
        BranchAction::List => args_of(&vec!["for-each-ref", "--format=%(refname:short)", "refs/heads"]),
        BranchAction::Create(n) => args_of(&vec!["branch", n.as_str()]),
        BranchAction::Delete { branch_name, force } => args_of(
            &vec!["branch", if *force { "-D" } else { "-d" }, branch_name.as_str()],
        ),
    };
    assert(views(r@) =~= branch_query(*action));
    r
}

/// The context of a failed branch listing.
pub open spec fn branches_context(path: Seq<char>) -> Seq<char> {
    "fatal: failed to read branch information for '"@ + path + "'"@
}

fn in_context(path: &str, e: &String) -> (r: String)
    ensures
        r@ == branches_context(path@) + ": "@ + e@,
{
    let mut m = lit("fatal: failed to read branch information for '");
    extend(&mut m, &chars_of(path));
    extend(&mut m, &lit("': "));
    extend(&mut m, &chars_of(e.as_str()));
    proof {
        reveal_strlit("'");
        reveal_strlit(": ");
        reveal_strlit("': ");
        assert(m@ =~= branches_context(path@) + ": "@ + e@);
    }
    string_of(&m)
}

/// The branches of `repo` from the listing query's output, one per line,
/// or the error of the failed query.
pub fn repo_branch_names(repo: &Repo, output: &GitOutput) -> (r: Result<Vec<String>, String>)
    ensures
        output.succeeded() ==> (r matches Ok(b) && views(b@) == lines(output.stdout@)),
        !output.succeeded() ==> (r matches Err(e) && e@ == branches_context(repo.path@) + ": "@
            + stdout_failure(branches_query(), repo.path@, output.stderr@)),
{
    let args = invocation(&BranchAction::List);
    match stdout_or_error(&args, repo.path.as_str(), output) {
        Ok(out) => {
            let ls = lines_of(&chars_of(out.as_str()));
            let mut names: Vec<String> = Vec::new();
            let mut i: usize = 0;
            while i < ls.len()
                invariant
                    i <= ls.len(),
                    ls@.len() == lines(out@).len(),
                    forall|k: int| 0 <= k < ls@.len() ==> #[trigger] ls@[k]@ == lines(out@)[k],
                    views(names@) == lines(out@).take(i as int),
                decreases ls.len() - i,
            {
                let ghost before = views(names@);
                names.push(string_of(&ls[i]));
                assert(views(names@) =~= before.push(ls@[i as int]@));
                assert(lines(out@).take(i + 1) =~= lines(out@).take(i as int).push(
                    lines(out@)[i as int],
                ));
                i += 1;
            }
            assert(lines(out@).take(ls.len() as int) =~= lines(out@));
            Ok(names)
        },
        Err(e) => Err(in_context(repo.path.as_str(), &e)),
    }
}

/// A failed head resolution, in the listing's context.
pub fn head_failure(repo: &Repo, error: &String) -> (r: String)
    ensures
        r@ == branches_context(repo.path@) + ": "@ + error@,
{
    in_context(repo.path.as_str(), error)
}

/// The success report of a creation or deletion: a creation is quiet, a
/// deletion reports git's first stdout line.
pub open spec fn branch_success(delete: bool) -> SuccessModel {
    if delete {
        SuccessModel::Line(Streams::StdoutOnly, None)
    } else {
        SuccessModel::Quiet
    }
}

/// The outcome of `branch <name>` or a deletion in `repo`; a failure
/// reports the first stderr line, else `git branch failed`.
pub fn branch_outcome(repo: &Repo, output: &GitOutput, delete: bool) -> (r: RepoOutcome)
    ensures
        r@ == reported_outcome(
            branch_success(delete),
            FailureModel::Line(Streams::StderrOnly, "git branch failed"@),
            *repo,
            *output,
        ),
{
    let success = if delete {
        SuccessReport::line(Streams::StdoutOnly, OnEmpty::Quiet)
    } else {
        SuccessReport::quiet()
    };
    command_result(repo, output, success, FailureReport::line(Streams::StderrOnly, "git branch failed"))
}

/// Each repository's name, branches and head, as text.
pub open spec fn branch_model(repos: Seq<(String, RepoBranches)>) -> Seq<
    (Seq<char>, Seq<Seq<char>>, HeadView),
> {
    repos.map_values(|r: (String, RepoBranches)| (r.0@, views(r.1.branches@), r.1.head@))
}

/// The branch names of each repository.
pub open spec fn branch_listing(m: Seq<(Seq<char>, Seq<Seq<char>>, HeadView)>) -> Seq<
    (Seq<char>, Seq<Seq<char>>),
> {
    m.map_values(|r: (Seq<char>, Seq<Seq<char>>, HeadView)| (r.0, r.1))
}

/// Whether some repository's head is on branch `name` (unborn or not).
pub open spec fn is_active(m: Seq<(Seq<char>, Seq<Seq<char>>, HeadView)>, name: Seq<char>) -> bool
    decreases m.len(),
{
    if m.len() == 0 {
        false
    } else {
        is_active(m.drop_last(), name) || match m.last().2 {
            HeadView::Branch(b) => b == name,
            HeadView::Unborn(b) => b == name,
            HeadView::Detached(_) => false,
        }
    }
}

/// The line of one branch: `*` when some repository has it checked out,
/// the name, and the repositories that have it when not all of them do.
pub open spec fn branch_line(name: Seq<char>, repos: Seq<Seq<char>>, active: bool, total: nat) -> Seq<char> {
    (if active {
        "* "@
    } else {
        "  "@
    }) + name + (if repos.len() == total {
        Seq::empty()
    } else {
        " ("@ + comma_list(repos) + ")"@
    }) + "\n"@
}

/// The lines of the branches named in `ks`.
pub open spec fn branch_lines(m: Seq<(Seq<char>, Seq<Seq<char>>, HeadView)>, ks: Seq<Seq<char>>) -> Seq<
    char,
>
    decreases ks.len(),
{
    if ks.len() == 0 {
        Seq::empty()
    } else {
        branch_lines(m, ks.drop_last()) + branch_line(
            ks.last(),
            sorted_set(members(tag_pairs(branch_listing(m)), ks.last())),
            is_active(m, ks.last()),
            m.len(),
        )
    }
}

/// The repositories with a detached head and the commit, in order.
pub open spec fn detached_of(m: Seq<(Seq<char>, Seq<Seq<char>>, HeadView)>) -> Seq<(Seq<char>, Seq<char>)>
    decreases m.len(),
{
    if m.len() == 0 {
        Seq::empty()
    } else {
        let rest = detached_of(m.drop_last());
        match m.last().2 {
            HeadView::Detached(h) => rest.push((m.last().0, h)),
            _ => rest,
        }
    }
}

/// `a` comes before `b`: by repository, then by commit.
pub open spec fn pair_lt(a: (Seq<char>, Seq<char>), b: (Seq<char>, Seq<char>)) -> bool {
    lex_lt(a.0, b.0) || (a.0 == b.0 && lex_lt(a.1, b.1))
}

/// The index of the first pair of `sorted`, from `j` on, that comes after
/// `key`; the length when there is none.
pub open spec fn pair_after(sorted: Seq<(Seq<char>, Seq<char>)>, key: (Seq<char>, Seq<char>), j: int) -> int
    decreases sorted.len() - j,
{
    if j < 0 || j >= sorted.len() {
        sorted.len() as int
    } else if pair_lt(key, sorted[j]) {
        j
    } else {
        pair_after(sorted, key, j + 1)
    }
}

/// The pairs sorted by repository, then commit.
pub open spec fn sorted_pairs(s: Seq<(Seq<char>, Seq<char>)>) -> Seq<(Seq<char>, Seq<char>)>
    decreases s.len(),
{
    if s.len() == 0 {
        Seq::empty()
    } else {
        let sorted = sorted_pairs(s.drop_last());
        sorted.insert(pair_after(sorted, s.last(), 0), s.last())
    }
}

/// The lines of the detached heads.
pub open spec fn detached_lines(ds: Seq<(Seq<char>, Seq<char>)>) -> Seq<char>
    decreases ds.len(),
{
    if ds.len() == 0 {
        Seq::empty()
    } else {
        detached_lines(ds.drop_last()) + "* (HEAD detached at "@ + ds.last().1 + ") ("@
            + ds.last().0 + ")\n"@
    }
}

/// The branch list: one line per branch name, in name order, then one per
/// detached head, by repository.
pub open spec fn branches_text(m: Seq<(Seq<char>, Seq<Seq<char>>, HeadView)>) -> Seq<char> {
    branch_lines(m, sorted_set(keys(tag_pairs(branch_listing(m))))) + detached_lines(
        sorted_pairs(detached_of(m)),
    )
}

fn pair_less(a: &(Vec<char>, Vec<char>), b: &(Vec<char>, Vec<char>)) -> (r: bool)
    ensures
        r == pair_lt((a.0@, a.1@), (b.0@, b.1@)),
{
    less_than(&a.0, &b.0) || (same(&a.0, &b.0) && less_than(&a.1, &b.1))
}

fn sort_pairs(v: &Vec<(Vec<char>, Vec<char>)>) -> (r: Vec<(Vec<char>, Vec<char>)>)
    ensures
        pair_views(r@) == sorted_pairs(pair_views(v@)),
{
    let mut r: Vec<(Vec<char>, Vec<char>)> = Vec::new();
    let mut i: usize = 0;
    while i < v.len()
        invariant
            i <= v.len(),
            pair_views(r@) == sorted_pairs(pair_views(v@).take(i as int)),
        decreases v.len() - i,
    {
        let key = &v[i];
        let ghost sorted = pair_views(r@);
        let ghost kv = (key.0@, key.1@);
        let mut j: usize = 0;
        while j < r.len() && !pair_less(key, &r[j])
            invariant
                j <= r.len(),
                sorted == pair_views(r@),
                kv == (key.0@, key.1@),
                pair_after(sorted, kv, 0) == pair_after(sorted, kv, j as int),
            decreases r.len() - j,
        {
            j += 1;
        }
        r.insert(j, (copy_chars(&key.0), copy_chars(&key.1)));
        proof {
            let t = pair_views(v@).take(i + 1);
            assert(t.drop_last() =~= pair_views(v@).take(i as int));
            assert(t.last() == kv);
            assert(pair_after(sorted, kv, j as int) == j as int);
            assert(pair_views(r@) =~= sorted.insert(j as int, kv));
        }
        i += 1;
    }
    assert(pair_views(v@).take(v.len() as int) =~= pair_views(v@));
    r
}

fn branch_pairs(repos: &Vec<(String, RepoBranches)>) -> (r: Vec<(Vec<char>, Vec<char>)>)
    ensures
        pair_views(r@) == tag_pairs(branch_listing(branch_model(repos@))),
{
    let ghost ls = branch_listing(branch_model(repos@));
    let mut pairs: Vec<(Vec<char>, Vec<char>)> = Vec::new();
    let mut i: usize = 0;
    while i < repos.len()
        invariant
            i <= repos.len(),
            ls == branch_listing(branch_model(repos@)),
            pair_views(pairs@) == tag_pairs(ls.take(i as int)),
        decreases repos.len() - i,
    {
        let ghost start = pair_views(pairs@);
        let bs = &repos[i].1.branches;
        let ghost name = repos@[i as int].0@;
        let mut k: usize = 0;
        while k < bs.len()
            invariant
                k <= bs.len(),
                i < repos@.len(),
                bs == &repos@[i as int].1.branches,
                name == repos@[i as int].0@,
                pair_views(pairs@) == start + views(bs@).take(k as int).map_values(
                    |t: Seq<char>| (t, name),
                ),
            decreases bs.len() - k,
        {
            let ghost before = pair_views(pairs@);
            pairs.push((chars_of(bs[k].as_str()), chars_of(repos[i].0.as_str())));
            assert(pair_views(pairs@) =~= before.push((bs@[k as int]@, name)));
            assert(views(bs@).take(k + 1).map_values(|t: Seq<char>| (t, name)) =~= views(
                bs@,
            ).take(k as int).map_values(|t: Seq<char>| (t, name)).push((bs@[k as int]@, name)));
            k += 1;
        }
        proof {
            assert(views(bs@).take(bs.len() as int) =~= views(bs@));
            let t = ls.take(i + 1);
            assert(t.drop_last() =~= ls.take(i as int));
            assert(t.last() == (name, views(bs@)));
        }
        i += 1;
    }
    assert(ls.take(repos.len() as int) =~= ls);
    pairs
}

fn active(repos: &Vec<(String, RepoBranches)>, name: &Vec<char>) -> (r: bool)
    ensures
        r == is_active(branch_model(repos@), name@),
{
    let ghost m = branch_model(repos@);
    let mut found = false;
    let mut i: usize = 0;
    while i < repos.len()
        invariant
            i <= repos.len(),
            m == branch_model(repos@),
            found == is_active(m.take(i as int), name@),
        decreases repos.len() - i,
    {
        assert(m.take(i + 1).drop_last() =~= m.take(i as int));
        assert(m.take(i + 1).last() == m[i as int]);
        let here = match &repos[i].1.head {
            Head::Branch(b) => same(&chars_of(b.as_str()), name),
            Head::Unborn(b) => same(&chars_of(b.as_str()), name),
            Head::Detached(_) => false,
        };
        found = found || here;
        i += 1;
    }
    assert(m.take(repos.len() as int) =~= m);
    found
}

fn detached_pairs(repos: &Vec<(String, RepoBranches)>) -> (r: Vec<(Vec<char>, Vec<char>)>)
    ensures
        pair_views(r@) == detached_of(branch_model(repos@)),
{
    let ghost m = branch_model(repos@);
    let mut r: Vec<(Vec<char>, Vec<char>)> = Vec::new();
    let mut i: usize = 0;
    while i < repos.len()
        invariant
            i <= repos.len(),
            m == branch_model(repos@),
            pair_views(r@) == detached_of(m.take(i as int)),
        decreases repos.len() - i,
    {
        assert(m.take(i + 1).drop_last() =~= m.take(i as int));
        assert(m.take(i + 1).last() == m[i as int]);
        let ghost before = pair_views(r@);
        match &repos[i].1.head {
            Head::Detached(h) => {
                r.push((chars_of(repos[i].0.as_str()), chars_of(h.as_str())));
                assert(pair_views(r@) =~= before.push((repos@[i as int].0@, h@)));
            },
            _ => {},
        }
        i += 1;
    }
    assert(m.take(repos.len() as int) =~= m);
    r
}

/// Renders the branch list grouped across child repositories: one line per
/// branch name, in name order, marked `*` when some repository has it
/// checked out and followed by the repositories that have it when not all
/// do; then one line per detached head, by repository.
pub fn render_branches(repos: &Vec<(String, RepoBranches)>) -> (r: String)
    ensures
        r@ == branches_text(branch_model(repos@)),
{
    let ghost m = branch_model(repos@);
    let pairs = branch_pairs(repos);
    let ks = sorted_distinct(&keys_of(&pairs));
    let mut out: Vec<char> = Vec::new();
    let mut k: usize = 0;
    while k < ks.len()
        invariant
            k <= ks.len(),
            m == branch_model(repos@),
            pair_views(pairs@) == tag_pairs(branch_listing(m)),
            names(ks@) == sorted_set(keys(tag_pairs(branch_listing(m)))),
            out@ == branch_lines(m, names(ks@).take(k as int)),
        decreases ks.len() - k,
    {
        let ghost before = out@;
        let on = active(repos, &ks[k]);
        if on {
            extend(&mut out, &lit("* "));
        } else {
            extend(&mut out, &lit("  "));
        }
        extend(&mut out, &ks[k]);
        let rs = sorted_distinct(&members_of(&pairs, &ks[k]));
        if rs.len() != repos.len() {
            extend(&mut out, &lit(" ("));
            extend(&mut out, &comma_list_of(&rs, rs.len()));
            assert(names(rs@).take(rs.len() as int) =~= names(rs@));
            extend(&mut out, &lit(")"));
        }
        out.push('\n');
        proof {
            reveal_strlit("\n");
            let t = names(ks@).take(k + 1);
            assert(t.drop_last() =~= names(ks@).take(k as int));
            assert(t.last() == ks@[k as int]@);
            assert(out@ =~= before + branch_line(
                ks@[k as int]@,
                sorted_set(members(tag_pairs(branch_listing(m)), ks@[k as int]@)),
                is_active(m, ks@[k as int]@),
                m.len(),
            ));
        }
        k += 1;
    }
    assert(names(ks@).take(ks.len() as int) =~= names(ks@));
    let ds = sort_pairs(&detached_pairs(repos));
    let ghost head = out@;
    let mut i: usize = 0;
    while i < ds.len()
        invariant
            i <= ds.len(),
            out@ == head + detached_lines(pair_views(ds@).take(i as int)),
        decreases ds.len() - i,
    {
        extend(&mut out, &lit("* (HEAD detached at "));
        extend(&mut out, &ds[i].1);
        extend(&mut out, &lit(") ("));
        extend(&mut out, &ds[i].0);
        extend(&mut out, &lit(")\n"));
        proof {
            let t = pair_views(ds@).take(i + 1);
            assert(t.drop_last() =~= pair_views(ds@).take(i as int));
            assert(t.last() == (ds@[i as int].0@, ds@[i as int].1@));
        }
        i += 1;
    }
    assert(pair_views(ds@).take(ds.len() as int) =~= pair_views(ds@));
    string_of(&out)
}

/// The outcomes of a creation or deletion in each repository.
pub open spec fn branch_outcomes(repos: Seq<Repo>, outputs: Seq<GitOutput>, delete: bool) -> Seq<
    OutcomeView,
> {
    Seq::new(
        repos.len(),
        |k: int|
            reported_outcome(
                branch_success(delete),
                FailureModel::Line(Streams::StderrOnly, "git branch failed"@),
                repos[k],
                outputs[k],
            ),
    )
}

/// Each repository's name, branches (from its listing) and head.
pub open spec fn listed_model(
    repos: Seq<Repo>,
    outputs: Seq<GitOutput>,
    heads: Seq<Result<Head, String>>,
) -> Seq<(Seq<char>, Seq<Seq<char>>, HeadView)> {
    Seq::new(
        repos.len(),
        |k: int|
            (
                repos[k].name@,
                lines(outputs[k].stdout@),
                match heads[k] {
                    Ok(h) => h@,
                    Err(_) => HeadView::Detached(Seq::empty()),
                },
            ),
    )
}

/// Whether repository `k`'s listing and head were both read.
pub open spec fn listed(outputs: Seq<GitOutput>, heads: Seq<Result<Head, String>>, k: int) -> bool {
    outputs[k].succeeded() && heads[k] is Ok
}

/// The error of repository `k` whose listing or head failed: the listing
/// failure first.
pub open spec fn listing_error(
    repo: Repo,
    output: GitOutput,
    head: Result<Head, String>,
) -> Seq<char> {
    if !output.succeeded() {
        branches_context(repo.path@) + ": "@ + stdout_failure(
            branches_query(),
            repo.path@,
            output.stderr@,
        )
    } else {
        match head {
            Err(e) => branches_context(repo.path@) + ": "@ + e@,
            Ok(_) => Seq::empty(),
        }
    }
}

/// What listing the branches gives: the branch list when every
/// repository's listing and head were read, else the first failure's
/// error.
pub open spec fn listing_result(
    repos: Seq<Repo>,
    outputs: Seq<GitOutput>,
    heads: Seq<Result<Head, String>>,
    r: Result<Rendered, RunError>,
) -> bool {
    &&& (forall|k: int| 0 <= k < repos.len() ==> #[trigger] listed(outputs, heads, k)) ==> r is Ok
    &&& match r {
        Ok(x) => (forall|k: int| 0 <= k < repos.len() ==> #[trigger] listed(outputs, heads, k))
            && x.stdout@ == branches_text(listed_model(repos, outputs, heads))
            && x.stderr@.len() == 0 && x.pager is None,
        Err(RunError::Message(e)) => exists|k: int|
            0 <= k < repos.len() && !(#[trigger] listed(outputs, heads, k)) && (forall|j: int|
                0 <= j < k ==> listed(outputs, heads, j)) && e@ == listing_error(
                repos[k],
                outputs[k],
                heads[k],
            ),
        Err(RunError::Failed(_)) => false,
    }
}

/// What creating (or deleting) a branch gives: the aggregated outcomes.
pub open spec fn change_result(
    repos: Seq<Repo>,
    outputs: Seq<GitOutput>,
    delete: bool,
    r: Result<Rendered, RunError>,
) -> bool {
    let (out, err, failures) = aggregate(branch_outcomes(repos, outputs, delete), repos.len());
    match r {
        Ok(x) => outcome_pairs(branch_outcomes(repos, outputs, delete), 2).len() == 0 && x.stdout@
            == out && x.stderr@ == err && x.pager is None,
        Err(RunError::Failed(f)) => outcome_pairs(branch_outcomes(repos, outputs, delete), 2).len()
            > 0 && f.message@ == failures && f.rendered.stdout@ == out && f.rendered.stderr@ == err,
        Err(RunError::Message(_)) => false,
    }
}

/// The branch list of the repositories from their listings
/// (`outputs[i]` from `repos[i]`) and resolved heads, unless one failed,
/// which stops the listing with the first failure's error.
pub fn list_branches(
    repos: &Vec<Repo>,
    outputs: &Vec<GitOutput>,
    heads: &Vec<Result<Head, String>>,
) -> (r: Result<Rendered, RunError>)
    requires
        repos@.len() == outputs@.len(),
        heads@.len() == repos@.len(),
    ensures
        listing_result(repos@, outputs@, heads@, r),
{
    let mut found: Vec<(String, RepoBranches)> = Vec::new();
    let mut i: usize = 0;
    while i < repos.len()
        invariant
            i <= repos.len(),
            repos@.len() == outputs@.len(),
            heads@.len() == repos@.len(),
            forall|j: int| 0 <= j < i ==> #[trigger] listed(outputs@, heads@, j),
            branch_model(found@) == listed_model(repos@, outputs@, heads@).take(i as int),
        decreases repos.len() - i,
    {
        let names = match repo_branch_names(&repos[i], &outputs[i]) {
            Ok(b) => b,
            Err(e) => {
                assert(!listed(outputs@, heads@, i as int));
                return Err(RunError::Message(e));
            },
        };
        let head = match &heads[i] {
            Ok(h) => match h {
                Head::Branch(b) => Head::Branch(string_of(&chars_of(b.as_str()))),
                Head::Detached(b) => Head::Detached(string_of(&chars_of(b.as_str()))),
                Head::Unborn(b) => Head::Unborn(string_of(&chars_of(b.as_str()))),
            },
            Err(e) => {
                assert(!listed(outputs@, heads@, i as int));
                return Err(RunError::Message(head_failure(&repos[i], e)));
            },
        };
        let ghost before = branch_model(found@);
        found.push(
            (string_of(&chars_of(repos[i].name.as_str())), RepoBranches { branches: names, head }),
        );
        proof {
            let l = listed_model(repos@, outputs@, heads@);
            assert(branch_model(found@) =~= before.push(l[i as int]));
            assert(l.take(i + 1) =~= l.take(i as int).push(l[i as int]));
        }
        i += 1;
    }
    assert(listed_model(repos@, outputs@, heads@).take(repos.len() as int) =~= listed_model(
        repos@,
        outputs@,
        heads@,
    ));
    Ok(Rendered { stdout: render_branches(&found), stderr: String::new(), pager: None })
}

/// The aggregated outcomes of creating (or, with `delete`, deleting) a
/// branch in each repository (`outputs[i]` from `repos[i]`).
pub fn change_branches(repos: &Vec<Repo>, outputs: &Vec<GitOutput>, delete: bool) -> (r: Result<
    Rendered,
    RunError,
>)
    requires
        repos@.len() == outputs@.len(),
    ensures
        change_result(repos@, outputs@, delete, r),
{
    let mut results: Vec<RepoOutcome> = Vec::new();
    let mut i: usize = 0;
    while i < repos.len()
        invariant
            i <= repos.len(),
            repos@.len() == outputs@.len(),
            outcome_views(results@) == branch_outcomes(repos@, outputs@, delete).take(i as int),
        decreases repos.len() - i,
    {
        let o = branch_outcome(&repos[i], &outputs[i], delete);
        let ghost before = outcome_views(results@);
        results.push(o);
        assert(outcome_views(results@) =~= before.push(o@));
        assert(branch_outcomes(repos@, outputs@, delete).take(i + 1) =~= branch_outcomes(
            repos@,
            outputs@,
            delete,
        ).take(i as int).push(o@));
        i += 1;
    }
    assert(branch_outcomes(repos@, outputs@, delete).take(repos.len() as int) =~= branch_outcomes(
        repos@,
        outputs@,
        delete,
    ));
    match outcomes(&results, repos.len()) {
        Ok(x) => Ok(x),
        Err(f) => Err(RunError::Failed(f)),
    }
}

/// The result of `branch` over the child repositories, from the outputs
/// of its invocation in each and, for a listing, each repository's
/// resolved head: the branch list, or the aggregated outcomes of the
/// creations or deletions.
pub fn run(
    args: &BranchArgs,
    repos: &Vec<Repo>,
    outputs: &Vec<GitOutput>,
    heads: &Vec<Result<Head, String>>,
) -> (r: Result<Rendered, RunError>)
    requires
        repos@.len() == outputs@.len(),
        args.branch_name is None ==> heads@.len() == repos@.len(),
    ensures
        args.branch_name is None ==> listing_result(repos@, outputs@, heads@, r),
        args.branch_name is Some ==> change_result(
            repos@,
            outputs@,
            args.delete || args.force_delete,
            r,
        ),
{
    match args.branch_name {
        None => list_branches(repos, outputs, heads),
        Some(_) => change_branches(repos, outputs, args.delete || args.force_delete),
    }
}

} // verus!
