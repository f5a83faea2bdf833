//! `status` of the front end that reads the child repositories of a VMR
//! root directly: each child's porcelain status (its head, whether it has
//! no commits yet, its staged, unstaged and untracked paths), and the
//! report grouped by branch.
//!
//! The report names the repositories of a branch group in full unless every
//! committed repository shares one branch and none is detached; repositories
//! without commits are grouped apart from committed ones on the same
//! branch; paths are shown relative to the working directory.

use crate::commands::status::{
    entries, header_head, read_status, render_paths, section_text, shown, sort_by_path,
    sorted_by_path, staged_hints, status_error, status_output_readable, status_query,
    unstaged_hints, untracked_hints, FileChange, FileEntry, HeaderHead, HeaderView, ShownEntry,
    StatusRecords,
};
use crate::commands::status::{nul_records, parsed_records};
use crate::git::{args_of, stdout_failure, stdout_or_error, views, GitOutput, Repo};
use crate::group::{by_name, names, sort_by_name, sorted_distinct, sorted_set};
use crate::paths::{join_path, path_join, prefix_from, shown_prefix};
use crate::render::{comma_list, comma_list_of, Paint};
use crate::text::{chars_of, extend, lit, same, slice_of, string_of, trim, trimmed};
use vstd::prelude::*;

verus! {

/// The head of a child repository: a branch (with or without commits), or
/// a detached commit.
pub enum Head {
    Branch(String),
    Detached(String),
}

/// The status of one child repository.
pub struct RepoStatus {
    pub head: Head,
    /// Whether the branch has no commits yet.
    pub initial: bool,
    pub staged_changes: Vec<FileEntry>,
    pub unstaged_changes: Vec<FileEntry>,
    pub untracked_files: Vec<FileEntry>,
}

/// The error reading a child's status output gives, if any: the failed
/// query, a missing branch header, or a header of unexpected format.
pub open spec fn read_error(path: Seq<char>, output: GitOutput) -> Option<Seq<char>> {
    let rs = nul_records(output.stdout@);
    if !output.succeeded() {
        Some(
            "failed to read git status for '"@ + path + "': "@ + stdout_failure(
                status_query(),
                path,
                output.stderr@,
            ),
        )
    } else if rs.len() == 0 {
        Some("git status did not return a branch header"@)
    } else if header_head(rs[0]) is None {
        Some("git status branch header had unexpected format"@)
    } else {
        None
    }
}

proof fn lemma_fatal_errors(path: Seq<char>, output: GitOutput)
    ensures
        match read_error(path, output) {
            Some(e) => status_error(path, output) == Some("fatal: "@ + e),
            None => status_error(path, output) is None,
        },
{
    reveal_strlit("fatal: ");
    reveal_strlit("fatal: failed to read git status for '");
    reveal_strlit("failed to read git status for '");
    reveal_strlit("fatal: git status did not return a branch header");
    reveal_strlit("git status did not return a branch header");
    reveal_strlit("fatal: git status branch header had unexpected format");
    reveal_strlit("git status branch header had unexpected format");
    reveal_strlit("'");
    reveal_strlit("': ");
    reveal_strlit(": ");
    let rs = nul_records(output.stdout@);
    if !output.succeeded() {
        let f = stdout_failure(status_query(), path, output.stderr@);
        assert(crate::commands::status::status_context(path) + ": "@ + f =~= "fatal: "@ + (
        "failed to read git status for '"@ + path + "': "@ + f));
    } else if rs.len() == 0 {
        assert(crate::commands::status::missing_header() =~= "fatal: "@
            + "git status did not return a branch header"@);
    } else if header_head(rs[0]) is None {
        assert(crate::commands::status::unexpected_header() =~= "fatal: "@
            + "git status branch header had unexpected format"@);
    }
}

/// Reads the status query's output of the child at `path`: its branch
/// header and its staged, unstaged and untracked entries.
pub fn read_repo_status(path: &str, output: &GitOutput) -> (r: Result<StatusRecords, String>)
    requires
        status_output_readable(*output),
    ensures
        match read_error(path@, *output) {
            Some(e) => r matches Err(m) && m@ == e,
            None => r matches Ok(s) && {
                let rs = nul_records(output.stdout@);
                let p = parsed_records(rs.skip(1));
                &&& Some(s.head@) == header_head(rs[0])
                &&& entries(s.staged_changes@) == p.0
                &&& entries(s.unstaged_changes@) == p.1
                &&& entries(s.untracked_files@) == p.2
            },
        },
{
    let repo = Repo { name: String::new(), path: string_of(&chars_of(path)) };
    proof {
        lemma_fatal_errors(path@, *output);
    }
    match read_status(&repo, output) {
        Ok(s) => Ok(s),
        Err(e) => {
            proof {
                reveal_strlit("fatal: ");
            }
            let m = chars_of(e.as_str());
            let rest = slice_of(&m, 7, m.len());
            proof {
                let x = read_error(path@, *output)->0;
                assert(m@ == "fatal: "@ + x);
                assert(rest@ =~= x);
            }
            Err(string_of(&rest))
        },
    }
}

/// The head and the no-commits flag a branch header gives, unless the head
/// is detached, whose commit takes the short-head query.
pub fn header_status(h: &HeaderHead) -> (r: Option<(Head, bool)>)
    ensures
        match h@ {
            HeaderView::Branch(b) => r matches Some((Head::Branch(x), false)) && x@ == b,
            HeaderView::Unborn(b) => r matches Some((Head::Branch(x), true)) && x@ == b,
            HeaderView::Detached => r is None,
        },
{
    match h {
        HeaderHead::Branch(b) => Some((Head::Branch(string_of(&chars_of(b.as_str()))), false)),
        HeaderHead::Unborn(b) => Some((Head::Branch(string_of(&chars_of(b.as_str()))), true)),
        HeaderHead::Detached => None,
    }
}

/// The arguments of the query for a detached head's abbreviated commit.
pub open spec fn short_query() -> Seq<Seq<char>> {
    seq!["rev-parse"@, "--short"@, "HEAD"@]
}

/// The arguments of the query for a detached head's abbreviated commit.
pub fn short_head_args() -> (r: Vec<String>)
    ensures
        views(r@) == short_query(),
{
    let r = args_of(&vec!["rev-parse", "--short", "HEAD"]);
    assert(views(r@) =~= short_query());
    r
}

/// The detached head of the child at `path` from the short-head query's
/// output: its trimmed abbreviated commit, or the error of the failed
/// query.
pub fn detached_head(path: &str, output: &GitOutput) -> (r: Result<Head, String>)
    ensures
        output.succeeded() ==> (r matches Ok(Head::Detached(h)) && h@ == trim(output.stdout@)),
        !output.succeeded() ==> (r matches Err(e) && e@ == stdout_failure(
            short_query(),
            path@,
            output.stderr@,
        )),
{
    let args = short_head_args();
    match stdout_or_error(&args, path, output) {
        Ok(out) => Ok(Head::Detached(string_of(&trimmed(&chars_of(out.as_str()))))),
        Err(e) => Err(e),
    }
}

/// The status of a child, from its records and its resolved head.
pub fn repo_status(records: StatusRecords, head: Head, initial: bool) -> (r: RepoStatus)
    ensures
        r.head == head,
        r.initial == initial,
        r.staged_changes == records.staged_changes,
        r.unstaged_changes == records.unstaged_changes,
        r.untracked_files == records.untracked_files,
{
    RepoStatus {
        head,
        initial,
        staged_changes: records.staged_changes,
        unstaged_changes: records.unstaged_changes,
        untracked_files: records.untracked_files,
    }
}

/// The statuses sorted by repository name.
pub fn sort_statuses(statuses: Vec<(String, RepoStatus)>) -> (r: Vec<(String, RepoStatus)>)
    ensures
        r@ == by_name(statuses@),
{
    sort_by_name(statuses)
}

/// The branch names of the committed repositories whose head is on a
/// branch, in repository order.
pub open spec fn regular_branches(st: Seq<(String, RepoStatus)>) -> Seq<Seq<char>>
    decreases st.len(),
{
    if st.len() == 0 {
        Seq::empty()
    } else {
        let rest = regular_branches(st.drop_last());
        match st.last().1.head {
            Head::Branch(b) => if st.last().1.initial {
                rest
            } else {
                rest.push(b@)
            },
            Head::Detached(_) => rest,
        }
    }
}

/// The branch names of the repositories whose head is on a branch, with
/// commits or not, in repository order.
pub open spec fn branch_names(st: Seq<(String, RepoStatus)>) -> Seq<Seq<char>>
    decreases st.len(),
{
    if st.len() == 0 {
        Seq::empty()
    } else {
        let rest = branch_names(st.drop_last());
        match st.last().1.head {
            Head::Branch(b) => rest.push(b@),
            Head::Detached(_) => rest,
        }
    }
}

/// Whether some repository's head is detached.
pub open spec fn any_detached(st: Seq<(String, RepoStatus)>) -> bool {
    exists|i: int| 0 <= i < st.len() && (#[trigger] st[i]).1.head is Detached
}

/// Whether a status belongs to the group of branch `b` with commits
/// (`initial` false) or without.
pub open spec fn in_group(s: RepoStatus, b: Seq<char>, initial: bool) -> bool {
    match s.head {
        Head::Branch(x) => x@ == b && s.initial == initial,
        Head::Detached(_) => false,
    }
}

/// The indices, among the first `m`, of the repositories in the group of
/// branch `b`.
pub open spec fn group_members(st: Seq<(String, RepoStatus)>, b: Seq<char>, initial: bool, m: int) -> Seq<
    usize,
>
    decreases m,
{
    if m <= 0 {
        Seq::empty()
    } else {
        let rest = group_members(st, b, initial, m - 1);
        if in_group(st[m - 1].1, b, initial) {
            rest.push((m - 1) as usize)
        } else {
            rest
        }
    }
}

/// The names of the repositories at `idx`.
pub open spec fn names_at(st: Seq<(String, RepoStatus)>, idx: Seq<usize>) -> Seq<Seq<char>> {
    idx.map_values(|i: usize| st[i as int].0@)
}

/// Whether any of the repositories at `idx` has no commits yet.
pub open spec fn any_initial(st: Seq<(String, RepoStatus)>, idx: Seq<usize>) -> bool
    decreases idx.len(),
{
    if idx.len() == 0 {
        false
    } else {
        any_initial(st, idx.drop_last()) || st[idx.last() as int].1.initial
    }
}

/// The entries of one kind of a status: 0 staged, 1 unstaged, 2
/// untracked.
pub open spec fn kind_entries(s: RepoStatus, kind: int) -> Seq<(Seq<char>, FileChange)> {
    if kind == 0 {
        entries(s.staged_changes@)
    } else if kind == 1 {
        entries(s.unstaged_changes@)
    } else {
        entries(s.untracked_files@)
    }
}

/// Entries of the repository in directory `dir` with their paths as shown
/// from `working_dir`: below the directory's shown path.
pub open spec fn shown_entries(
    dir: Seq<char>,
    es: Seq<(Seq<char>, FileChange)>,
    working_dir: Seq<char>,
) -> Seq<(Seq<char>, FileChange)> {
    es.map_values(|e: (Seq<char>, FileChange)| (path_join(shown_prefix(dir, working_dir), e.0), e.1))
}

/// The entries of one kind of the repositories at `idx`, in that order,
/// each repository in its directory below `root`, with their paths as
/// shown from `working_dir`.
pub open spec fn collected(
    st: Seq<(String, RepoStatus)>,
    idx: Seq<usize>,
    kind: int,
    working_dir: Seq<char>,
    root: Seq<char>,
) -> Seq<(Seq<char>, FileChange)>
    decreases idx.len(),
{
    if idx.len() == 0 {
        Seq::empty()
    } else {
        collected(st, idx.drop_last(), kind, working_dir, root) + shown_entries(
            path_join(root, st[idx.last() as int].0@),
            kind_entries(st[idx.last() as int].1, kind),
            working_dir,
        )
    }
}

fn entries_of_kind(s: &RepoStatus, kind: u8) -> (r: &Vec<FileEntry>)
    ensures
        entries(r@) == kind_entries(*s, kind as int),
{
    if kind == 0 {
        &s.staged_changes
    } else if kind == 1 {
        &s.unstaged_changes
    } else {
        &s.untracked_files
    }
}

/// The entries of one kind of the repositories at `idx`, shown from
/// `working_dir` and sorted by shown path.
fn collect_section(
    statuses: &Vec<(String, RepoStatus)>,
    idx: &Vec<usize>,
    kind: u8,
    working_dir: &str,
    root: &str,
) -> (r: Vec<ShownEntry>)
    requires
        forall|k: int| 0 <= k < idx@.len() ==> idx@[k] < statuses@.len(),
    ensures
        shown(r@) == sorted_by_path(collected(statuses@, idx@, kind as int, working_dir@, root@)),
{
    let mut all: Vec<ShownEntry> = Vec::new();
    let mut k: usize = 0;
    while k < idx.len()
        invariant
            k <= idx.len(),
            forall|m: int| 0 <= m < idx@.len() ==> idx@[m] < statuses@.len(),
            shown(all@) == collected(statuses@, idx@.take(k as int), kind as int, working_dir@, root@),
        decreases idx.len() - k,
    {
        let (name, st) = &statuses[idx[k]];
        let dir = chars_of(join_path(root, name.as_str()).as_str());
        let prefix = prefix_from(string_of(&dir).as_str(), working_dir);
        let es = entries_of_kind(st, kind);
        let ghost before = shown(all@);
        let mut m: usize = 0;
        while m < es.len()
            invariant
                m <= es.len(),
                prefix@ == shown_prefix(dir@, working_dir@),
                shown(all@) == before + shown_entries(dir@, entries(es@).take(m as int), working_dir@),
            decreases es.len() - m,
        {
            let p = chars_of(join_path(string_of(&prefix).as_str(), es[m].path.as_str()).as_str());
            let ghost old_all = shown(all@);
            all.push(ShownEntry { path: p, change: es[m].change });
            assert(shown(all@) =~= old_all.push((p@, es@[m as int].change)));
            assert(entries(es@)[m as int] == (es@[m as int].path@, es@[m as int].change));
            assert(shown_entries(dir@, entries(es@).take(m + 1), working_dir@) =~= shown_entries(
                dir@,
                entries(es@).take(m as int),
                working_dir@,
            ).push((p@, es@[m as int].change)));
            m += 1;
        }
        proof {
            assert(entries(es@).take(es.len() as int) =~= entries(es@));
            let t = idx@.take(k + 1);
            assert(t.drop_last() =~= idx@.take(k as int));
            assert(t.last() == idx@[k as int]);
        }
        k += 1;
    }
    assert(idx@.take(idx.len() as int) =~= idx@);
    sort_by_path(&all)
}

/// The body of a group of repositories: the no-commits notice, the staged,
/// unstaged and untracked sections, and a blank line; without sections,
/// the clean summary unless a repository has no commits.
pub open spec fn group_text(
    st: Seq<(String, RepoStatus)>,
    idx: Seq<usize>,
    wd: Seq<char>,
    root: Seq<char>,
) -> Seq<char> {
    let e0 = sorted_by_path(collected(st, idx, 0, wd, root));
    let e1 = sorted_by_path(collected(st, idx, 1, wd, root));
    let e2 = sorted_by_path(collected(st, idx, 2, wd, root));
    let initial = any_initial(st, idx);
    (if initial {
        "No commits yet.\n"@
    } else {
        Seq::empty()
    }) + section_text(e0, "Changes to be committed:"@, staged_hints("git vmr"@), Paint::Staged)
        + section_text(
        e1,
        "Changes not staged for commit:"@,
        unstaged_hints("git vmr"@),
        Paint::Changed,
    ) + section_text(e2, "Untracked files:"@, untracked_hints("git vmr"@), Paint::Changed) + (
    if e0.len() > 0 || e1.len() > 0 || e2.len() > 0 {
        "\n"@
    } else if !initial {
        "nothing to commit, working tree clean\n"@
    } else {
        Seq::empty()
    })
}

fn hint(dn: &Vec<char>, before: &str, after: &str) -> (r: Vec<char>)
    ensures
        r@ == before@ + dn@ + after@,
{
    let mut r = lit(before);
    extend(&mut r, dn);
    extend(&mut r, &lit(after));
    r
}

/// Appends the body of a group of repositories.
#[verifier::spinoff_prover]
#[verifier::rlimit(60)]
fn render_group(
    out: &mut Vec<char>,
    statuses: &Vec<(String, RepoStatus)>,
    idx: &Vec<usize>,
    working_dir: &str,
    root: &str,
)
    requires
        forall|k: int| 0 <= k < idx@.len() ==> idx@[k] < statuses@.len(),
    ensures
        final(out)@ == old(out)@ + group_text(statuses@, idx@, working_dir@, root@),
{
    let ghost start = out@;
    let mut initial = false;
    let mut k: usize = 0;
    while k < idx.len()
        invariant
            k <= idx.len(),
            forall|m: int| 0 <= m < idx@.len() ==> idx@[m] < statuses@.len(),
            initial == any_initial(statuses@, idx@.take(k as int)),
        decreases idx.len() - k,
    {
        initial = initial || statuses[idx[k]].1.initial;
        assert(idx@.take(k + 1).drop_last() =~= idx@.take(k as int));
        k += 1;
    }
    assert(idx@.take(idx.len() as int) =~= idx@);
    if initial {
        extend(out, &lit("No commits yet.\n"));
    }
    let e0 = collect_section(statuses, idx, 0, working_dir, root);
    let e1 = collect_section(statuses, idx, 1, working_dir, root);
    let e2 = collect_section(statuses, idx, 2, working_dir, root);
    let dn = lit("git vmr");
    let h0 = vec![hint(&dn, "  (use \"", " restore --staged <file>...\" to unstage)")];
    let h1 = vec![
        hint(&dn, "  (use \"", " add <file>...\" to update what will be committed)"),
        hint(&dn, "  (use \"", " restore <file>...\" to discard changes in working directory)"),
    ];
    let h2 = vec![hint(&dn, "  (use \"", " add <file>...\" to include in what will be committed)")];
    assert(names(h0@) =~= staged_hints("git vmr"@));
    assert(names(h1@) =~= unstaged_hints("git vmr"@));
    assert(names(h2@) =~= untracked_hints("git vmr"@));
    let ghost a0 = out@;
    let staged = render_paths(out, &lit("Changes to be committed:"), &h0, &e0, Paint::Staged);
    let unstaged = render_paths(
        out,
        &lit("Changes not staged for commit:"),
        &h1,
        &e1,
        Paint::Changed,
    );
    let untracked = render_paths(out, &lit("Untracked files:"), &h2, &e2, Paint::Changed);
    let ghost a3 = out@;
    if staged || unstaged || untracked {
        out.push('\n');
        proof {
            reveal_strlit("\n");
        }
    } else if !initial {
        extend(out, &lit("nothing to commit, working tree clean\n"));
    }
    proof {
        let notice = if initial { "No commits yet.\n"@ } else { Seq::<char>::empty() };
        assert(a0 =~= start + notice);
        assert(a3 =~= start + notice + section_text(
            shown(e0@),
            "Changes to be committed:"@,
            staged_hints("git vmr"@),
            Paint::Staged,
        ) + section_text(
            shown(e1@),
            "Changes not staged for commit:"@,
            unstaged_hints("git vmr"@),
            Paint::Changed,
        ) + section_text(shown(e2@), "Untracked files:"@, untracked_hints("git vmr"@), Paint::Changed));
        assert(out@ =~= start + group_text(statuses@, idx@, working_dir@, root@));
    }
}

/// The heading of a branch group: the branch alone when every committed
/// repository is on this one branch and none is detached, else the branch
/// and the names of the group's repositories.
pub open spec fn branch_heading(
    st: Seq<(String, RepoStatus)>,
    b: Seq<char>,
    initial: bool,
    idx: Seq<usize>,
) -> Seq<char> {
    if !initial && sorted_set(regular_branches(st)).len() == 1 && !any_detached(st) {
        "On branch "@ + b + "\n"@
    } else {
        "On branch "@ + b + " ("@ + comma_list(names_at(st, idx)) + ")\n"@
    }
}

/// The block of the group of branch `b`: nothing when the group is empty,
/// else its heading and its body.
pub open spec fn branch_block(
    st: Seq<(String, RepoStatus)>,
    b: Seq<char>,
    initial: bool,
    wd: Seq<char>,
    root: Seq<char>,
) -> Seq<char> {
    let idx = group_members(st, b, initial, st.len() as int);
    if idx.len() == 0 {
        Seq::empty()
    } else {
        branch_heading(st, b, initial, idx) + group_text(st, idx, wd, root)
    }
}

/// The blocks of the branches, in order, committed before initial.
pub open spec fn branch_blocks(
    st: Seq<(String, RepoStatus)>,
    keys: Seq<Seq<char>>,
    wd: Seq<char>,
    root: Seq<char>,
) -> Seq<char>
    decreases keys.len(),
{
    if keys.len() == 0 {
        Seq::empty()
    } else {
        branch_blocks(st, keys.drop_last(), wd, root) + branch_block(st, keys.last(), false, wd, root)
            + branch_block(st, keys.last(), true, wd, root)
    }
}

/// The block of repository `i` when its head is detached.
pub open spec fn detached_block(st: Seq<(String, RepoStatus)>, i: int, wd: Seq<char>, root: Seq<char>) -> Seq<
    char,
> {
    match st[i].1.head {
        Head::Detached(h) => "HEAD detached at "@ + h@ + " ("@ + st[i].0@ + ")\n"@ + group_text(
            st,
            seq![i as usize],
            wd,
            root,
        ),
        _ => Seq::empty(),
    }
}

/// The blocks of the detached heads among the first `m` repositories.
pub open spec fn detached_blocks(st: Seq<(String, RepoStatus)>, m: int, wd: Seq<char>, root: Seq<char>) -> Seq<
    char,
>
    decreases m,
{
    if m <= 0 {
        Seq::empty()
    } else {
        detached_blocks(st, m - 1, wd, root) + detached_block(st, m - 1, wd, root)
    }
}

/// The status report: a block per branch, in branch order, then one per
/// detached head, in repository order.
pub open spec fn status_report(st: Seq<(String, RepoStatus)>, wd: Seq<char>, root: Seq<char>) -> Seq<
    char,
> {
    branch_blocks(st, sorted_set(branch_names(st)), wd, root) + detached_blocks(
        st,
        st.len() as int,
        wd,
        root,
    )
}

fn group_of(statuses: &Vec<(String, RepoStatus)>, b: &Vec<char>, initial: bool) -> (r: Vec<usize>)
    ensures
        r@ == group_members(statuses@, b@, initial, statuses@.len() as int),
        forall|k: int| 0 <= k < r@.len() ==> r@[k] < statuses@.len(),
{
    let mut r: Vec<usize> = Vec::new();
    let mut i: usize = 0;
    while i < statuses.len()
        invariant
            i <= statuses.len(),
            r@ == group_members(statuses@, b@, initial, i as int),
            forall|k: int| 0 <= k < r@.len() ==> r@[k] < i,
        decreases statuses.len() - i,
    {
        let member = match &statuses[i].1.head {
            Head::Branch(x) => statuses[i].1.initial == initial && same(&chars_of(x.as_str()), b),
            Head::Detached(_) => false,
        };
        if member {
            r.push(i);
        }
        i += 1;
    }
    r
}

fn names_of_group(statuses: &Vec<(String, RepoStatus)>, idx: &Vec<usize>) -> (r: Vec<Vec<char>>)
    requires
        forall|k: int| 0 <= k < idx@.len() ==> idx@[k] < statuses@.len(),
    ensures
        names(r@) == names_at(statuses@, idx@),
{
    let mut r: Vec<Vec<char>> = Vec::new();
    let mut k: usize = 0;
    while k < idx.len()
        invariant
            k <= idx.len(),
            forall|m: int| 0 <= m < idx@.len() ==> idx@[m] < statuses@.len(),
            names(r@) == names_at(statuses@, idx@.take(k as int)),
        decreases idx.len() - k,
    {
        let ghost before = names(r@);
        r.push(chars_of(statuses[idx[k]].0.as_str()));
        let ghost j = idx@[k as int] as int;
        assert(names(r@) =~= before.push(statuses@[j].0@));
        assert(names_at(statuses@, idx@.take(k + 1)) =~= names_at(statuses@, idx@.take(k as int)).push(
            statuses@[j].0@,
        ));
        k += 1;
    }
    assert(idx@.take(idx.len() as int) =~= idx@);
    r
}

fn branch_names_of(statuses: &Vec<(String, RepoStatus)>, regular: bool) -> (r: Vec<Vec<char>>)
    ensures
        regular ==> names(r@) == regular_branches(statuses@),
        !regular ==> names(r@) == branch_names(statuses@),
{
    let mut r: Vec<Vec<char>> = Vec::new();
    let mut i: usize = 0;
    while i < statuses.len()
        invariant
            i <= statuses.len(),
            regular ==> names(r@) == regular_branches(statuses@.take(i as int)),
            !regular ==> names(r@) == branch_names(statuses@.take(i as int)),
        decreases statuses.len() - i,
    {
        assert(statuses@.take(i + 1).drop_last() =~= statuses@.take(i as int));
        match &statuses[i].1.head {
            Head::Branch(b) => {
                if !regular || !statuses[i].1.initial {
                    r.push(chars_of(b.as_str()));
                }
            },
            Head::Detached(_) => {},
        }
        assert(regular ==> names(r@) =~= regular_branches(statuses@.take(i + 1)));
        assert(!regular ==> names(r@) =~= branch_names(statuses@.take(i + 1)));
        i += 1;
    }
    assert(statuses@.take(statuses.len() as int) =~= statuses@);
    r
}

fn has_detached(statuses: &Vec<(String, RepoStatus)>) -> (r: bool)
    ensures
        r == any_detached(statuses@),
{
    let mut i: usize = 0;
    while i < statuses.len()
        invariant
            i <= statuses.len(),
            forall|k: int| 0 <= k < i ==> !((#[trigger] statuses@[k]).1.head is Detached),
        decreases statuses.len() - i,
    {
        match &statuses[i].1.head {
            Head::Detached(_) => {
                return true;
            },
            Head::Branch(_) => {},
        }
        i += 1;
    }
    false
}

/// Appends the block of the group of branch `b`.
fn render_branch_block(
    out: &mut Vec<char>,
    statuses: &Vec<(String, RepoStatus)>,
    b: &Vec<char>,
    initial: bool,
    plain: bool,
    working_dir: &str,
    root: &str,
)
    requires
        plain == (sorted_set(regular_branches(statuses@)).len() == 1 && !any_detached(statuses@)),
    ensures
        final(out)@ == old(out)@ + branch_block(statuses@, b@, initial, working_dir@, root@),
{
    let idx = group_of(statuses, b, initial);
    if idx.len() == 0 {
        assert(final(out)@ =~= old(out)@ + branch_block(statuses@, b@, initial, working_dir@, root@));
        return;
    }
    let ghost start = out@;
    extend(out, &lit("On branch "));
    extend(out, b);
    if !initial && plain {
        out.push('\n');
    } else {
        let ns = names_of_group(statuses, &idx);
        extend(out, &lit(" ("));
        extend(out, &comma_list_of(&ns, ns.len()));
        extend(out, &lit(")\n"));
        assert(names(ns@).take(ns.len() as int) =~= names(ns@));
    }
    proof {
        reveal_strlit("\n");
        assert(out@ =~= start + branch_heading(statuses@, b@, initial, idx@));
    }
    render_group(out, statuses, &idx, working_dir, root);
    assert(out@ =~= start + branch_block(statuses@, b@, initial, working_dir@, root@));
}

/// Appends the block of repository `i` when its head is detached.
fn render_detached_block(
    out: &mut Vec<char>,
    statuses: &Vec<(String, RepoStatus)>,
    i: usize,
    working_dir: &str,
    root: &str,
)
    requires
        i < statuses@.len(),
    ensures
        final(out)@ == old(out)@ + detached_block(statuses@, i as int, working_dir@, root@),
{
    match &statuses[i].1.head {
        Head::Detached(h) => {
            let ghost before = out@;
            extend(out, &lit("HEAD detached at "));
            extend(out, &chars_of(h.as_str()));
            extend(out, &lit(" ("));
            extend(out, &chars_of(statuses[i].0.as_str()));
            extend(out, &lit(")\n"));
            let idx = vec![i];
            assert(idx@ =~= seq![i]);
            render_group(out, statuses, &idx, working_dir, root);
            assert(out@ =~= before + detached_block(statuses@, i as int, working_dir@, root@));
        },
        _ => {
            assert(final(out)@ =~= old(out)@ + detached_block(statuses@, i as int, working_dir@, root@));
        },
    }
}

/// Renders the status of the child repositories (named, each in its
/// directory below `vmr_root`), grouped by branch, with paths shown from
/// `working_dir`.
#[verifier::spinoff_prover]
#[verifier::rlimit(60)]
pub fn render_status(statuses: &Vec<(String, RepoStatus)>, working_dir: &str, vmr_root: &str) -> (r:
    String)
    ensures
        r@ == status_report(statuses@, working_dir@, vmr_root@),
{
    let regular = sorted_distinct(&branch_names_of(statuses, true));
    let plain = regular.len() == 1 && !has_detached(statuses);
    let ks = sorted_distinct(&branch_names_of(statuses, false));
    let mut out: Vec<char> = Vec::new();
    let mut k: usize = 0;
    while k < ks.len()
        invariant
            k <= ks.len(),
            plain == (sorted_set(regular_branches(statuses@)).len() == 1 && !any_detached(
                statuses@,
            )),
            names(ks@) == sorted_set(branch_names(statuses@)),
            out@ == branch_blocks(statuses@, names(ks@).take(k as int), working_dir@, vmr_root@),
        decreases ks.len() - k,
    {
        render_branch_block(&mut out, statuses, &ks[k], false, plain, working_dir, vmr_root);
        render_branch_block(&mut out, statuses, &ks[k], true, plain, working_dir, vmr_root);
        proof {
            let t = names(ks@).take(k + 1);
            assert(t.drop_last() =~= names(ks@).take(k as int));
            assert(t.last() == ks@[k as int]@);
        }
        k += 1;
    }
    assert(names(ks@).take(ks.len() as int) =~= names(ks@));
    let ghost blocks = out@;
    let mut i: usize = 0;
    while i < statuses.len()
        invariant
            i <= statuses.len(),
            out@ == blocks + detached_blocks(statuses@, i as int, working_dir@, vmr_root@),
        decreases statuses.len() - i,
    {
        render_detached_block(&mut out, statuses, i, working_dir, vmr_root);
        i += 1;
    }
    string_of(&out)
}

} // verus!
