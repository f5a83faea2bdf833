//! `worktree`: worktree roots, each holding one child worktree per child
//! repository, listed with the head each child worktree has checked out.

use crate::git::{git_style_path, head_rank, head_text, spec_git_style_path, Head, RepoOutcome};
use crate::group::{names, sort_names, sorted_distinct, sorted_names, sorted_set};
use crate::render::{
    aggregate, fail, outcome_pairs, outcome_views, outcomes, repo_list_suffix, repo_suffix, Failed, Rendered,
};
use crate::text::{chars_of, extend, lit, same, string_of};
use vstd::prelude::*;

verus! {

/// Manage multiple working trees.
pub enum WorktreeCommand {
    /// Create a worktree at <path> and checkout [commit-ish] into it
    Add(WorktreeAddArgs),
    /// List details of each worktree
    List,
    /// Move a worktree to a new location
    Move(WorktreeMoveArgs),
    /// Remove a worktree
    Remove(WorktreeRemoveArgs),
}

/// Create a worktree at <path> and checkout [commit-ish] into it.
pub struct WorktreeAddArgs {
    /// Create a new branch named <new-branch> starting at [commit-ish], and
    /// check out <new-branch> into the new worktree
    pub branch: Option<String>,
    pub path: String,
    pub commit_ish: Option<String>,
}

/// Move a worktree to a new location.
pub struct WorktreeMoveArgs {
    /// Move a worktree even when Git would otherwise refuse; twice for the
    /// cases that need two force flags
    pub force: u8,
    /// Worktrees can be identified by path, either relative or absolute
    pub path: String,
    /// New location for the worktree
    pub new_path: String,
}

/// Remove a worktree.
pub struct WorktreeRemoveArgs {
    /// Remove an unclean worktree; twice to remove a locked one
    pub force: u8,
    /// Delete the branch
    pub delete: bool,
    /// Force-delete the branch
    pub force_delete: bool,
    /// Worktrees can be identified by path, either relative or absolute
    pub path: String,
}

/// One child worktree of a root: the child repository and its head.
pub struct WorktreeRootEntry {
    pub repo: String,
    pub head: Head,
}

/// How a head is shown: a branch (unborn or not) in brackets, a detached
/// head as its commit marked `(detached HEAD)`.
pub open spec fn head_shown(h: Head) -> Seq<char> {
    match h {
        Head::Detached(hash) => hash@ + " (detached HEAD)"@,
        Head::Branch(b) => "["@ + b@ + "]"@,
        Head::Unborn(b) => "["@ + b@ + "]"@,
    }
}

/// How a head is shown.
pub fn render_head(head: &Head) -> (r: Vec<char>)
    ensures
        r@ == head_shown(*head),
{
    match head {
        Head::Branch(b) | Head::Unborn(b) => {
            let mut r = lit("[");
            extend(&mut r, &chars_of(b.as_str()));
            extend(&mut r, &lit("]"));
            r
        },
        Head::Detached(hash) => {
            let mut r = chars_of(hash.as_str());
            extend(&mut r, &lit(" (detached HEAD)"));
            r
        },
    }
}

/// The names or commits of the heads of one kind (branch, detached,
/// unborn), in entry order.
pub open spec fn texts_of_rank(es: Seq<WorktreeRootEntry>, rank: int) -> Seq<Seq<char>>
    decreases es.len(),
{
    if es.len() == 0 {
        Seq::empty()
    } else {
        let rest = texts_of_rank(es.drop_last(), rank);
        if head_rank(es.last().head) == rank {
            rest.push(head_text(es.last().head))
        } else {
            rest
        }
    }
}

/// The repositories whose head is of kind `rank` with name or commit
/// `text`, in entry order.
pub open spec fn repos_at(es: Seq<WorktreeRootEntry>, rank: int, text: Seq<char>) -> Seq<Seq<char>>
    decreases es.len(),
{
    if es.len() == 0 {
        Seq::empty()
    } else {
        let rest = repos_at(es.drop_last(), rank, text);
        if head_rank(es.last().head) == rank && head_text(es.last().head) == text {
            rest.push(es.last().repo@)
        } else {
            rest
        }
    }
}

/// The head of kind `rank` with name or commit `text`, as shown.
pub open spec fn shown_of(rank: int, text: Seq<char>) -> Seq<char> {
    if rank == 1 {
        text + " (detached HEAD)"@
    } else {
        "["@ + text + "]"@
    }
}

/// The lines of the heads of kind `rank` named in `keys`: the head, then
/// the suffix of its repositories, sorted, among `total`.
pub open spec fn rank_lines(
    es: Seq<WorktreeRootEntry>,
    rank: int,
    keys: Seq<Seq<char>>,
    total: nat,
) -> Seq<Seq<char>>
    decreases keys.len(),
{
    if keys.len() == 0 {
        Seq::empty()
    } else {
        rank_lines(es, rank, keys.drop_last(), total).push(
            shown_of(rank, keys.last()) + repo_suffix(
                sorted_names(repos_at(es, rank, keys.last())),
                total,
            ),
        )
    }
}

/// The lines of a root: one per distinct head, in head order (branches,
/// then detached heads, then unborn branches, each by name).
pub open spec fn root_lines(es: Seq<WorktreeRootEntry>, total: nat) -> Seq<Seq<char>> {
    rank_lines(es, 0, sorted_set(texts_of_rank(es, 0)), total) + rank_lines(
        es,
        1,
        sorted_set(texts_of_rank(es, 1)),
        total,
    ) + rank_lines(es, 2, sorted_set(texts_of_rank(es, 2)), total)
}

/// Each line indented on a line of its own.
pub open spec fn indented(lines: Seq<Seq<char>>) -> Seq<char>
    decreases lines.len(),
{
    if lines.len() == 0 {
        Seq::empty()
    } else {
        indented(lines.drop_last()) + "  "@ + lines.last() + "\n"@
    }
}

/// The block of a root: the root and its only line on one line, else the
/// root on a line of its own and each line indented below it.
pub open spec fn root_block(root: Seq<char>, es: Seq<WorktreeRootEntry>, total: nat) -> Seq<char> {
    let lines = root_lines(es, total);
    if lines.len() == 1 {
        spec_git_style_path(root) + " "@ + lines[0] + "\n"@
    } else {
        spec_git_style_path(root) + "\n"@ + indented(lines)
    }
}

/// The blocks of the roots, in order.
pub open spec fn worktree_text(groups: Seq<(String, Vec<WorktreeRootEntry>)>, total: nat) -> Seq<
    char,
>
    decreases groups.len(),
{
    if groups.len() == 0 {
        Seq::empty()
    } else {
        worktree_text(groups.drop_last(), total) + root_block(
            groups.last().0@,
            groups.last().1@,
            total,
        )
    }
}

fn texts_of(es: &Vec<WorktreeRootEntry>, rank: u8) -> (r: Vec<Vec<char>>)
    ensures
        names(r@) == texts_of_rank(es@, rank as int),
{
    let mut r: Vec<Vec<char>> = Vec::new();
    let mut i: usize = 0;
    while i < es.len()
        invariant
            i <= es.len(),
            names(r@) == texts_of_rank(es@.take(i as int), rank as int),
        decreases es.len() - i,
    {
        assert(es@.take(i + 1).drop_last() =~= es@.take(i as int));
        let ghost before = names(r@);
        let (k, t): (u8, &String) = match &es[i].head {
            Head::Branch(b) => (0, b),
            Head::Detached(h) => (1, h),
            Head::Unborn(b) => (2, b),
        };
        if k == rank {
            r.push(chars_of(t.as_str()));
            assert(names(r@) =~= before.push(head_text(es@[i as int].head)));
        }
        i += 1;
    }
    assert(es@.take(es.len() as int) =~= es@);
    r
}

fn repos_of(es: &Vec<WorktreeRootEntry>, rank: u8, text: &Vec<char>) -> (r: Vec<Vec<char>>)
    ensures
        names(r@) == repos_at(es@, rank as int, text@),
{
    let mut r: Vec<Vec<char>> = Vec::new();
    let mut i: usize = 0;
    while i < es.len()
        invariant
            i <= es.len(),
            names(r@) == repos_at(es@.take(i as int), rank as int, text@),
        decreases es.len() - i,
    {
        assert(es@.take(i + 1).drop_last() =~= es@.take(i as int));
        let ghost before = names(r@);
        let (k, t): (u8, &String) = match &es[i].head {
            Head::Branch(b) => (0, b),
            Head::Detached(h) => (1, h),
            Head::Unborn(b) => (2, b),
        };
        if k == rank && same(&chars_of(t.as_str()), text) {
            r.push(chars_of(es[i].repo.as_str()));
            assert(names(r@) =~= before.push(es@[i as int].repo@));
        }
        i += 1;
    }
    assert(es@.take(es.len() as int) =~= es@);
    r
}

fn push_rank_lines(lines: &mut Vec<Vec<char>>, es: &Vec<WorktreeRootEntry>, rank: u8, total: usize)
    requires
        rank <= 2,
    ensures
        names(final(lines)@) == names(old(lines)@) + rank_lines(
            es@,
            rank as int,
            sorted_set(texts_of_rank(es@, rank as int)),
            total as nat,
        ),
{
    let keys = sorted_distinct(&texts_of(es, rank));
    let ghost start = names(lines@);
    let mut k: usize = 0;
    while k < keys.len()
        invariant
            k <= keys.len(),
            rank <= 2,
            names(keys@) == sorted_set(texts_of_rank(es@, rank as int)),
            names(lines@) == start + rank_lines(
                es@,
                rank as int,
                names(keys@).take(k as int),
                total as nat,
            ),
        decreases keys.len() - k,
    {
        let mut line: Vec<char>;
        if rank == 1 {
            line = crate::text::copy_chars(&keys[k]);
            extend(&mut line, &lit(" (detached HEAD)"));
        } else {
            line = lit("[");
            extend(&mut line, &keys[k]);
            extend(&mut line, &lit("]"));
        }
        extend(&mut line, &repo_list_suffix(&sort_names(&repos_of(es, rank, &keys[k])), total));
        let ghost before = names(lines@);
        lines.push(line);
        proof {
            let t = names(keys@).take(k + 1);
            assert(t.drop_last() =~= names(keys@).take(k as int));
            assert(t.last() == keys@[k as int]@);
            assert(names(lines@) =~= before.push(line@));
        }
        k += 1;
    }
    assert(names(keys@).take(keys.len() as int) =~= names(keys@));
}

/// Appends the block of one root.
fn render_group(out: &mut Vec<char>, root: &str, entries: &Vec<WorktreeRootEntry>, total: usize)
    ensures
        final(out)@ == old(out)@ + root_block(root@, entries@, total as nat),
{
    let mut lines: Vec<Vec<char>> = Vec::new();
    push_rank_lines(&mut lines, entries, 0, total);
    push_rank_lines(&mut lines, entries, 1, total);
    push_rank_lines(&mut lines, entries, 2, total);
    assert(names(lines@) =~= root_lines(entries@, total as nat));
    let ghost start = out@;
    extend(out, &chars_of(git_style_path(root).as_str()));
    if lines.len() == 1 {
        out.push(' ');
        extend(out, &lines[0]);
        out.push('\n');
        proof {
            reveal_strlit(" ");
            reveal_strlit("\n");
            assert(names(lines@)[0] == lines@[0]@);
        }
    } else {
        out.push('\n');
        proof {
            reveal_strlit("\n");
        }
        let ghost head = out@;
        let mut k: usize = 0;
        while k < lines.len()
            invariant
                k <= lines.len(),
                out@ == head + indented(names(lines@).take(k as int)),
            decreases lines.len() - k,
        {
            extend(out, &lit("  "));
            extend(out, &lines[k]);
            out.push('\n');
            proof {
                let t = names(lines@).take(k + 1);
                assert(t.drop_last() =~= names(lines@).take(k as int));
                assert(t.last() == lines@[k as int]@);
                reveal_strlit("\n");
            }
            k += 1;
        }
        assert(names(lines@).take(lines.len() as int) =~= names(lines@));
    }
    assert(out@ =~= start + root_block(root@, entries@, total as nat));
}

/// Whether root path `a` comes before `b` in std's path order, which
/// compares the paths component by component.
pub uninterp spec fn path_precedes(a: Seq<char>, b: Seq<char>) -> bool;

/// `Path::new(a) < Path::new(b)`, std's path order. The contract names the
/// result as a function of the two paths.
#[verifier::external_body]
fn path_less(a: &str, b: &str) -> (r: bool)
    ensures
        r == path_precedes(a@, b@),
{
    std::path::Path::new(a) < std::path::Path::new(b)
}

/// The position in `order`, from `j` on, of the first group of `groups`
/// whose root comes after `key`; the length of `order` when there is none.
pub open spec fn root_after(
    groups: Seq<(String, Vec<WorktreeRootEntry>)>,
    order: Seq<int>,
    key: Seq<char>,
    j: int,
) -> int
    decreases order.len() - j,
{
    if j < 0 || j >= order.len() {
        order.len() as int
    } else if path_precedes(key, groups[order[j]].0@) {
        j
    } else {
        root_after(groups, order, key, j + 1)
    }
}

proof fn lemma_root_after(
    groups: Seq<(String, Vec<WorktreeRootEntry>)>,
    order: Seq<int>,
    key: Seq<char>,
    j: int,
)
    requires
        0 <= j <= order.len(),
    ensures
        j <= root_after(groups, order, key, j) <= order.len(),
    decreases order.len() - j,
{
    if j < order.len() && !path_precedes(key, groups[order[j]].0@) {
        lemma_root_after(groups, order, key, j + 1);
    }
}

/// The indices of the first `n` groups in root path order: each group goes
/// before the first one placed so far whose root comes after its own, so
/// groups with equal roots keep their order.
pub open spec fn root_order(groups: Seq<(String, Vec<WorktreeRootEntry>)>, n: nat) -> Seq<int>
    decreases n,
{
    if n == 0 {
        Seq::empty()
    } else {
        let order = root_order(groups, (n - 1) as nat);
        order.insert(root_after(groups, order, groups[n - 1].0@, 0), n - 1)
    }
}

proof fn lemma_root_order(groups: Seq<(String, Vec<WorktreeRootEntry>)>, n: nat)
    ensures
        root_order(groups, n).len() == n,
        forall|k: int| 0 <= k < n ==> 0 <= #[trigger] root_order(groups, n)[k] < n,
    decreases n,
{
    if n > 0 {
        let order = root_order(groups, (n - 1) as nat);
        lemma_root_order(groups, (n - 1) as nat);
        lemma_root_after(groups, order, groups[n - 1].0@, 0);
        let at = root_after(groups, order, groups[n - 1].0@, 0);
        assert forall|k: int| 0 <= k < n implies 0 <= #[trigger] root_order(groups, n)[k] < n by {
            if k < at {
                assert(root_order(groups, n)[k] == order[k]);
            } else if k > at {
                assert(root_order(groups, n)[k] == order[k - 1]);
            }
        }
    }
}

/// The groups in root path order, groups with equal roots in their first
/// order.
pub open spec fn by_root(groups: Seq<(String, Vec<WorktreeRootEntry>)>) -> Seq<
    (String, Vec<WorktreeRootEntry>),
> {
    root_order(groups, groups.len()).map_values(|i: int| groups[i])
}

/// The indices of the groups in root path order.
fn order_by_root(groups: &Vec<(String, Vec<WorktreeRootEntry>)>) -> (r: Vec<usize>)
    ensures
        r@.len() == groups.len(),
        forall|k: int| 0 <= k < r@.len() ==> r@[k] as int == #[trigger] root_order(groups@, groups.len() as nat)[k],
{
    let mut order: Vec<usize> = Vec::new();
    let mut i: usize = 0;
    while i < groups.len()
        invariant
            i <= groups.len(),
            order@.len() == i,
            forall|k: int| 0 <= k < i ==> order@[k] as int == #[trigger] root_order(groups@, i as nat)[k],
        decreases groups.len() - i,
    {
        let ghost key = groups@[i as int].0@;
        let ghost before = root_order(groups@, i as nat);
        proof {
            lemma_root_order(groups@, i as nat);
        }
        let mut j: usize = 0;
        while j < order.len() && !path_less(groups[i].0.as_str(), groups[order[j]].0.as_str())
            invariant
                j <= order.len(),
                order@.len() == i,
                i < groups.len(),
                key == groups@[i as int].0@,
                before.len() == i,
                forall|k: int| 0 <= k < i ==> 0 <= #[trigger] before[k] < i,
                forall|k: int| 0 <= k < i ==> order@[k] as int == #[trigger] before[k],
                root_after(groups@, before, key, 0) == root_after(groups@, before, key, j as int),
            decreases order.len() - j,
        {
            assert(order@[j as int] as int == before[j as int]);
            j += 1;
        }
        proof {
            lemma_root_after(groups@, before, key, j as int);
            if j < order.len() {
                assert(order@[j as int] as int == before[j as int]);
            }
            assert(root_after(groups@, before, key, j as int) == j as int);
        }
        let ghost old_order = order@;
        order.insert(j, i);
        proof {
            let after = root_order(groups@, (i + 1) as nat);
            assert(after == before.insert(j as int, i as int));
            assert forall|k: int| 0 <= k < i + 1 implies order@[k] as int == #[trigger] root_order(
                groups@,
                (i + 1) as nat,
            )[k] by {
                if k < j {
                    assert(order@[k] == old_order[k]);
                } else if k > j {
                    assert(order@[k] == old_order[k - 1]);
                }
            }
        }
        i += 1;
    }
    order
}

/// Renders the worktree list: one block per worktree root, in root path
/// order, heads grouped with the suffix of their repositories among
/// `total` when not all of them share it.
pub fn render(groups: &Vec<(String, Vec<WorktreeRootEntry>)>, total: usize) -> (r: String)
    ensures
        r@ == worktree_text(by_root(groups@), total as nat),
{
    let order = order_by_root(groups);
    let ghost sorted = by_root(groups@);
    proof {
        let n = groups.len() as nat;
        lemma_root_order(groups@, n);
        assert forall|m: int| 0 <= m < order@.len() implies #[trigger] order@[m] < groups.len() && sorted[m]
            == groups@[order@[m] as int] by {
            assert(order@[m] as int == root_order(groups@, n)[m]);
        }
    }
    let mut out: Vec<char> = Vec::new();
    let mut k: usize = 0;
    while k < order.len()
        invariant
            k <= order.len(),
            order@.len() == groups.len(),
            sorted == by_root(groups@),
            sorted.len() == groups.len(),
            forall|m: int|
                0 <= m < order@.len() ==> #[trigger] order@[m] < groups.len() && sorted[m] == groups@[order@[m] as int],
            out@ == worktree_text(sorted.take(k as int), total as nat),
        decreases order.len() - k,
    {
        let at = order[k];
        assert(at < groups.len());
        render_group(&mut out, groups[at].0.as_str(), &groups[at].1, total);
        proof {
            let t = sorted.take(k + 1);
            assert(t.drop_last() =~= sorted.take(k as int));
            assert(t.last() == groups@[at as int]);
        }
        k += 1;
    }
    assert(sorted.take(order.len() as int) =~= sorted);
    string_of(&out)
}

/// What a root operation that dissolves a root after its per-repo work
/// gives: the aggregated outcomes, failing, with what they rendered, when
/// dissolving the root failed.
pub open spec fn root_operation_result(
    results: Seq<RepoOutcome>,
    total: nat,
    dissolved: Result<(), String>,
    r: Result<Rendered, Failed>,
) -> bool {
    let (out, err, failures) = aggregate(outcome_views(results), total);
    if outcome_pairs(outcome_views(results), 2).len() > 0 {
        r matches Err(f) && f.message@ == failures && f.rendered.stdout@ == out
            && f.rendered.stderr@ == err && f.rendered.pager is None
    } else {
        match dissolved {
            Ok(()) => r matches Ok(x) && x.stdout@ == out && x.stderr@ == err && x.pager is None,
            Err(e) => r matches Err(f) && f.message == e && f.rendered.stdout@ == out
                && f.rendered.stderr@ == err && f.rendered.pager is None,
        }
    }
}

/// The end of a root operation that dissolves a root after its per-repo
/// work.
pub fn finish_root_operation(
    results: &Vec<RepoOutcome>,
    total: usize,
    dissolved: Result<(), String>,
) -> (r: Result<Rendered, Failed>)
    ensures
        root_operation_result(results@, total as nat, dissolved, r),
{
    let rendered = outcomes(results, total);
    match rendered {
        Err(f) => Err(f),
        Ok(rendered) => match dissolved {
            Ok(()) => Ok(rendered),
            Err(e) => Err(fail(rendered, e)),
        },
    }
}

/// The result of `worktree` (listing when no subcommand is given): the
/// rendered list of the worktree roots; the aggregated outcomes of adding
/// a root over the `total` repositories; or, for moving or removing one,
/// the aggregated outcomes and whether dissolving the old root failed.
pub fn run(
    command: &Option<WorktreeCommand>,
    groups: &Vec<(String, Vec<WorktreeRootEntry>)>,
    results: &Vec<RepoOutcome>,
    dissolved: Result<(), String>,
    total: usize,
) -> (r: Result<Rendered, Failed>)
    ensures
        match command {
            None | Some(WorktreeCommand::List) => r matches Ok(x) && x.stdout@ == worktree_text(
                by_root(groups@),
                total as nat,
            ) && x.stderr@.len() == 0 && x.pager is None,
            Some(WorktreeCommand::Add(_)) => crate::workspace::aggregated(
                outcome_views(results@),
                total as nat,
                r,
            ),
            _ => root_operation_result(results@, total as nat, dissolved, r),
        },
{
    match command {
        None | Some(WorktreeCommand::List) => Ok(
            Rendered { stdout: render(groups, total), stderr: String::new(), pager: None },
        ),
        Some(WorktreeCommand::Add(_)) => outcomes(results, total),
        _ => finish_root_operation(results, total, dissolved),
    }
}

} // verus!
