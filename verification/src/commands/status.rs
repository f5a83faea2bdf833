//! `status`: the working tree status of every child repository, grouped by
//! branch.
//!
//! Each repository's `git status --porcelain=v1 -z --branch` output is
//! parsed into its head and its staged, unstaged and untracked entries;
//! the statuses are then rendered like `git status`, one group per branch
//! (repositories with an unborn branch apart from committed ones of the
//! same name), then one group per detached head.

use crate::git::{args_of, stdout_failure, stdout_or_error, views, GitOutput, Head, Repo};
use crate::group::{names, sorted_distinct, sorted_set};
use crate::paths::{prefix_from, shown_path, show_path};
use crate::render::{paint, painted, repo_list_suffix, repo_suffix, Paint};
use crate::text::{lex_lt, less_than};
use crate::text::{
    chars_of, extend, find_seq, find_seq_of, lemma_find_seq, lit, same, slice_of, starts_with,
    string_of, trim, trimmed,
};
use vstd::prelude::*;

verus! {

/// The kind of change recorded for a path.
#[derive(Clone, Copy)]
pub enum FileChange {
    NewFile,
    Modified,
    Deleted,
    Renamed,
    TypeChange,
    Copied,
}

/// A changed path of a repository, relative to its root.
pub struct FileEntry {
    pub path: String,
    pub change: FileChange,
}

/// The status of one repository.
pub struct RepoStatus {
    pub head: Head,
    pub staged_changes: Vec<FileEntry>,
    pub unstaged_changes: Vec<FileEntry>,
    pub untracked_files: Vec<FileEntry>,
}

/// An entry as text: its path and its change.
pub open spec fn entry_view(e: FileEntry) -> (Seq<char>, FileChange) {
    (e.path@, e.change)
}

/// The entries of a vector as text.
pub open spec fn entries(v: Seq<FileEntry>) -> Seq<(Seq<char>, FileChange)> {
    v.map_values(|e: FileEntry| entry_view(e))
}

/// The change a porcelain status letter records, if any.
pub open spec fn status_change(status: char) -> Option<FileChange> {
    if status == 'A' {
        Some(FileChange::NewFile)
    } else if status == 'M' || status == 'U' {
        Some(FileChange::Modified)
    } else if status == 'D' {
        Some(FileChange::Deleted)
    } else if status == 'R' {
        Some(FileChange::Renamed)
    } else if status == 'T' {
        Some(FileChange::TypeChange)
    } else if status == 'C' {
        Some(FileChange::Copied)
    } else {
        None
    }
}

/// The change a porcelain status letter records, if any.
pub fn parse_status_change(status: char) -> (r: Option<FileChange>)
    ensures
        r == status_change(status),
{
    match status {
        'A' => Some(FileChange::NewFile),
        'M' => Some(FileChange::Modified),
        'D' => Some(FileChange::Deleted),
        'R' => Some(FileChange::Renamed),
        'T' => Some(FileChange::TypeChange),
        'C' => Some(FileChange::Copied),
        'U' => Some(FileChange::Modified),
        _ => None,
    }
}

/// The number of bytes of `c` in UTF-8.
pub open spec fn utf8_len(c: char) -> nat {
    if (c as u32) < 0x80u32 {
        1
    } else if (c as u32) < 0x800u32 {
        2
    } else if (c as u32) < 0x10000u32 {
        3
    } else {
        4
    }
}

/// The number of bytes of `s` in UTF-8.
pub open spec fn byte_len(s: Seq<char>) -> nat
    decreases s.len(),
{
    if s.len() == 0 {
        0
    } else {
        byte_len(s.drop_last()) + utf8_len(s.last())
    }
}

proof fn lemma_byte_len_prefix(s: Seq<char>, i: int)
    requires
        0 <= i <= s.len(),
    ensures
        byte_len(s.take(i)) <= byte_len(s),
    decreases s.len() - i,
{
    if i < s.len() {
        lemma_byte_len_prefix(s, i + 1);
        assert(s.take(i + 1).drop_last() =~= s.take(i));
    } else {
        assert(s.take(i) =~= s);
    }
}

/// The index of the character that starts at byte `3 - acc` after index
/// `i`, if a character starts there.
pub open spec fn char_at_byte(s: Seq<char>, i: int, acc: nat) -> Option<int>
    decreases s.len() - i,
{
    if acc == 3 {
        Some(i)
    } else if acc > 3 || i < 0 || i >= s.len() {
        None
    } else {
        char_at_byte(s, i + 1, acc + utf8_len(s[i]))
    }
}

/// The index of the character that starts at byte 3, where a record's
/// path begins, if a character starts there.
pub open spec fn path_start(s: Seq<char>) -> Option<int> {
    char_at_byte(s, 0, 0)
}

fn utf8_len_of(c: char) -> (n: usize)
    ensures
        n == utf8_len(c),
{
    if (c as u32) < 0x80u32 {
        1
    } else if (c as u32) < 0x800u32 {
        2
    } else if (c as u32) < 0x10000u32 {
        3
    } else {
        4
    }
}

/// Whether a record is shorter than four bytes.
fn is_short(r: &Vec<char>) -> (b: bool)
    ensures
        b == (byte_len(r@) < 4),
{
    let mut total: usize = 0;
    let mut i: usize = 0;
    while i < r.len() && total < 4
        invariant
            i <= r.len(),
            total == byte_len(r@.take(i as int)),
        decreases r.len() - i,
    {
        assert(r@.take(i + 1).drop_last() =~= r@.take(i as int));
        total = total + utf8_len_of(r[i]);
        i += 1;
    }
    proof {
        if total < 4 {
            assert(r@.take(i as int) =~= r@);
        } else {
            lemma_byte_len_prefix(r@, i as int);
        }
    }
    total < 4
}

/// The index where a record's path begins.
fn find_path_start(r: &Vec<char>) -> (k: Option<usize>)
    ensures
        k matches Some(k) ==> path_start(r@) == Some(k as int),
        k is None ==> path_start(r@) is None,
{
    let mut acc: usize = 0;
    let mut i: usize = 0;
    while acc < 3 && i < r.len()
        invariant
            i <= r.len(),
            acc <= 3,
            path_start(r@) == char_at_byte(r@, i as int, acc as nat),
        decreases r.len() - i,
    {
        let n = utf8_len_of(r[i]);
        if acc + n > 3 {
            assert(char_at_byte(r@, i + 1, (acc + n) as nat) is None);
            return None;
        }
        acc = acc + n;
        i += 1;
    }
    if acc == 3 {
        Some(i)
    } else {
        None
    }
}

/// Whether a record's status letters mark a rename or a copy, which git
/// follows with a record of the old path.
pub open spec fn renames(r: Seq<char>) -> bool {
    r[0] == 'R' || r[0] == 'C' || r[1] == 'R' || r[1] == 'C'
}

/// A change of `path` as a one-element list, if the letter records one.
pub open spec fn change_of(status: char, path: Seq<char>) -> Seq<(Seq<char>, FileChange)> {
    match status_change(status) {
        Some(c) => seq![(path, c)],
        None => Seq::empty(),
    }
}

/// The staged, unstaged and untracked entries of one file record: an
/// untracked path (`??`), an intent to add (` A`), which counts as staged,
/// or the changes its index and worktree letters record.
pub open spec fn record_entries(r: Seq<char>, path: Seq<char>) -> (
    Seq<(Seq<char>, FileChange)>,
    Seq<(Seq<char>, FileChange)>,
    Seq<(Seq<char>, FileChange)>,
) {
    if r[0] == '?' && r[1] == '?' {
        (Seq::empty(), Seq::empty(), seq![(path, FileChange::NewFile)])
    } else if r[0] == ' ' && r[1] == 'A' {
        (seq![(path, FileChange::NewFile)], Seq::empty(), Seq::empty())
    } else {
        (change_of(r[0], path), change_of(r[1], path), Seq::empty())
    }
}

/// The records after a file record: a rename or copy skips the record of
/// the old path that follows it.
pub open spec fn after_record(rs: Seq<Seq<char>>) -> Seq<Seq<char>> {
    if renames(rs[0]) && rs.len() >= 2 {
        rs.skip(2)
    } else {
        rs.skip(1)
    }
}

/// The staged, unstaged and untracked entries of porcelain v1 file
/// records; records shorter than four bytes are ignored.
pub open spec fn parsed_records(rs: Seq<Seq<char>>) -> (
    Seq<(Seq<char>, FileChange)>,
    Seq<(Seq<char>, FileChange)>,
    Seq<(Seq<char>, FileChange)>,
)
    decreases rs.len(),
{
    if rs.len() == 0 {
        (Seq::empty(), Seq::empty(), Seq::empty())
    } else if byte_len(rs[0]) < 4 {
        parsed_records(rs.skip(1))
    } else {
        let path = match path_start(rs[0]) {
            Some(k) => rs[0].skip(k),
            None => Seq::empty(),
        };
        let here = record_entries(rs[0], path);
        let rest = parsed_records(after_record(rs));
        (here.0 + rest.0, here.1 + rest.1, here.2 + rest.2)
    }
}

/// Whether every file record that is read as one has a character starting
/// at byte 3, where its path begins.
pub open spec fn records_well_formed(rs: Seq<Seq<char>>) -> bool
    decreases rs.len(),
{
    if rs.len() == 0 {
        true
    } else if byte_len(rs[0]) < 4 {
        records_well_formed(rs.skip(1))
    } else {
        path_start(rs[0]) is Some && records_well_formed(after_record(rs))
    }
}

proof fn lemma_long_record(r: Seq<char>)
    requires
        byte_len(r) >= 4,
        path_start(r) is Some,
    ensures
        r.len() >= 2,
        0 < path_start(r)->0 < r.len(),
{
    assert(r.len() > 0);
    assert(char_at_byte(r, 0, 0) == char_at_byte(r, 1, utf8_len(r[0])));
    if r.len() == 1 {
        assert(r.drop_last().len() == 0);
        assert(byte_len(r.drop_last()) == 0);
        assert(r.last() == r[0]);
        assert(byte_len(r) == utf8_len(r[0]));
        assert(char_at_byte(r, 1, utf8_len(r[0])) is None);
    }
    lemma_path_start_bound(r, 0, 0);
    if path_start(r)->0 == r.len() {
        lemma_byte_len_at(r, 0, 0);
    }
}

proof fn lemma_path_start_bound(s: Seq<char>, i: int, acc: nat)
    requires
        0 <= i <= s.len(),
    ensures
        char_at_byte(s, i, acc) matches Some(k) ==> i <= k <= s.len() && (acc < 3 ==> i < k),
    decreases s.len() - i,
{
    if acc != 3 && acc <= 3 && i < s.len() {
        lemma_path_start_bound(s, i + 1, acc + utf8_len(s[i]));
    }
}

proof fn lemma_byte_len_at(s: Seq<char>, i: int, acc: nat)
    requires
        0 <= i <= s.len(),
        acc == byte_len(s.take(i)),
        char_at_byte(s, i, acc) == Some(s.len() as int),
    ensures
        byte_len(s) == 3,
    decreases s.len() - i,
{
    if acc == 3 {
        assert(s.take(i) =~= s);
    } else {
        assert(s.take(i + 1).drop_last() =~= s.take(i));
        lemma_byte_len_at(s, i + 1, acc + utf8_len(s[i]));
    }
}

/// A file record whose index letter is `M` or `U` (modified, or unmerged
/// in a conflict) lists its path as a modified staged change, and one
/// whose worktree letter is `M` or `U` as a modified unstaged change;
/// neither is untracked. So a conflicted file shows in both sections
/// rather than vanishing from the status.
pub proof fn modified_and_unmerged_records_are_modifications(rs: Seq<Seq<char>>)
    requires
        rs.len() > 0,
        byte_len(rs[0]) >= 4,
        path_start(rs[0]) is Some,
    ensures
        ({
            let r = rs[0];
            let path = r.skip(path_start(r)->0);
            let p = parsed_records(rs);
            &&& (r[0] == 'M' || r[0] == 'U') ==> p.0.len() > 0 && p.0[0] == (path, FileChange::Modified)
            &&& (r[1] == 'M' || r[1] == 'U') ==> p.1.len() > 0 && p.1[0] == (path, FileChange::Modified)
            &&& (r[0] == 'M' || r[0] == 'U' || r[1] == 'M' || r[1] == 'U') ==> p.2 == parsed_records(
                after_record(rs),
            ).2
        }),
{
    lemma_long_record(rs[0]);
}

/// The change a porcelain letter names, as git documents its letters:
/// added, deleted, renamed, copied, type changed; a blank or any other
/// letter names none.
pub open spec fn documented_change(c: char) -> Option<FileChange> {
    if c == 'A' {
        Some(FileChange::NewFile)
    } else if c == 'M' || c == 'U' {
        Some(FileChange::Modified)
    } else if c == 'D' {
        Some(FileChange::Deleted)
    } else if c == 'R' {
        Some(FileChange::Renamed)
    } else if c == 'C' {
        Some(FileChange::Copied)
    } else if c == 'T' {
        Some(FileChange::TypeChange)
    } else {
        None
    }
}

/// The first file record of a status decides the first entries of each
/// section: `??` is an untracked new file and ` A` (intent to add) a
/// staged new file; otherwise the index letter gives the staged change and
/// the worktree letter the unstaged one, each as git documents it, and a
/// letter that names no change adds no entry.
pub proof fn first_record_entries(rs: Seq<Seq<char>>)
    requires
        rs.len() > 0,
        byte_len(rs[0]) >= 4,
        path_start(rs[0]) is Some,
    ensures
        ({
            let r = rs[0];
            let path = r.skip(path_start(r)->0);
            let p = parsed_records(rs);
            let rest = parsed_records(after_record(rs));
            if r[0] == '?' && r[1] == '?' {
                &&& p.0 == rest.0
                &&& p.1 == rest.1
                &&& p.2 == seq![(path, FileChange::NewFile)] + rest.2
            } else if r[0] == ' ' && r[1] == 'A' {
                &&& p.0 == seq![(path, FileChange::NewFile)] + rest.0
                &&& p.1 == rest.1
                &&& p.2 == rest.2
            } else {
                &&& p.0 == (match documented_change(r[0]) {
                    Some(c) => seq![(path, c)],
                    None => Seq::empty(),
                }) + rest.0
                &&& p.1 == (match documented_change(r[1]) {
                    Some(c) => seq![(path, c)],
                    None => Seq::empty(),
                }) + rest.1
                &&& p.2 == rest.2
            }
        }),
{
    lemma_long_record(rs[0]);
}

fn push_change(out: &mut Vec<FileEntry>, status: char, path: &Vec<char>)
    ensures
        entries(final(out)@) == entries(old(out)@) + change_of(status, path@),
{
    match parse_status_change(status) {
        Some(c) => {
            out.push(FileEntry { path: string_of(path), change: c });
            assert(entries(final(out)@) =~= entries(old(out)@) + change_of(status, path@));
        },
        None => {
            assert(entries(final(out)@) =~= entries(old(out)@) + change_of(status, path@));
        },
    }
}

/// Parses porcelain v1 `-z` file records into staged, unstaged and
/// untracked entries.
pub fn parse_file_records(records: &Vec<Vec<char>>) -> (r: (
    Vec<FileEntry>,
    Vec<FileEntry>,
    Vec<FileEntry>,
))
    requires
        records_well_formed(names_of(records@)),
    ensures
        entries(r.0@) == parsed_records(names_of(records@)).0,
        entries(r.1@) == parsed_records(names_of(records@)).1,
        entries(r.2@) == parsed_records(names_of(records@)).2,
{
    let ghost all = names_of(records@);
    let mut staged: Vec<FileEntry> = Vec::new();
    let mut unstaged: Vec<FileEntry> = Vec::new();
    let mut untracked: Vec<FileEntry> = Vec::new();
    let mut i: usize = 0;
    assert(all.skip(0) =~= all);
    while i < records.len()
        invariant
            i <= records.len(),
            all == names_of(records@),
            records_well_formed(all.skip(i as int)),
            entries(staged@) + parsed_records(all.skip(i as int)).0 == parsed_records(all).0,
            entries(unstaged@) + parsed_records(all.skip(i as int)).1 == parsed_records(all).1,
            entries(untracked@) + parsed_records(all.skip(i as int)).2 == parsed_records(all).2,
        decreases records.len() - i,
    {
        let ghost rs = all.skip(i as int);
        let r = &records[i];
        assert(rs[0] == r@);
        if is_short(r) {
            assert(rs.skip(1) =~= all.skip(i + 1));
            i += 1;
            continue;
        }
        let k = match find_path_start(r) {
            Some(k) => k,
            None => {
                assert(false);
                0
            },
        };
        proof {
            lemma_long_record(r@);
        }
        let path = slice_of(r, k, r.len());
        assert(path@ =~= r@.skip(k as int));
        let x = r[0];
        let y = r[1];
        let ghost here = record_entries(r@, path@);
        let ghost s0 = entries(staged@);
        let ghost u0 = entries(unstaged@);
        let ghost t0 = entries(untracked@);
        if x == '?' && y == '?' {
            untracked.push(FileEntry { path: string_of(&path), change: FileChange::NewFile });
            assert(entries(untracked@) =~= t0 + here.2);
            assert(entries(staged@) =~= s0 + here.0);
            assert(entries(unstaged@) =~= u0 + here.1);
        } else if x == ' ' && y == 'A' {
            staged.push(FileEntry { path: string_of(&path), change: FileChange::NewFile });
            assert(entries(staged@) =~= s0 + here.0);
            assert(entries(unstaged@) =~= u0 + here.1);
            assert(entries(untracked@) =~= t0 + here.2);
        } else {
            push_change(&mut staged, x, &path);
            push_change(&mut unstaged, y, &path);
            assert(entries(untracked@) =~= t0 + here.2);
        }
        let skips = (x == 'R' || x == 'C' || y == 'R' || y == 'C') && i + 1 < records.len();
        proof {
            let rest = after_record(rs);
            if skips {
                assert(rest =~= all.skip(i + 2));
            } else {
                assert(rest =~= all.skip(i + 1));
            }
            let p = parsed_records(rest);
            assert(parsed_records(rs) == (here.0 + p.0, here.1 + p.1, here.2 + p.2));
            assert(s0 + (here.0 + p.0) =~= (s0 + here.0) + p.0);
            assert(u0 + (here.1 + p.1) =~= (u0 + here.1) + p.1);
            assert(t0 + (here.2 + p.2) =~= (t0 + here.2) + p.2);
        }
        if skips {
            i += 2;
        } else {
            i += 1;
        }
    }
    proof {
        assert(all.skip(i as int) =~= Seq::<Seq<char>>::empty());
        assert(entries(staged@) + Seq::empty() =~= entries(staged@));
        assert(entries(unstaged@) + Seq::empty() =~= entries(unstaged@));
        assert(entries(untracked@) + Seq::empty() =~= entries(untracked@));
    }
    (staged, unstaged, untracked)
}

/// The views of the records.
pub open spec fn names_of(v: Seq<Vec<char>>) -> Seq<Seq<char>> {
    v.map_values(|r: Vec<char>| r@)
}

/// The records of `-z` output so far, and the record being read: records
/// end at NUL characters, and empty ones are dropped.
pub open spec fn nul_split(s: Seq<char>) -> (Seq<Seq<char>>, Seq<char>)
    decreases s.len(),
{
    if s.len() == 0 {
        (Seq::empty(), Seq::empty())
    } else {
        let (done, current) = nul_split(s.drop_last());
        if s.last() == '\0' {
            (
                if current.len() > 0 {
                    done.push(current)
                } else {
                    done
                },
                Seq::empty(),
            )
        } else {
            (done, current.push(s.last()))
        }
    }
}

/// The non-empty NUL-terminated (or final) records of `-z` output.
pub open spec fn nul_records(s: Seq<char>) -> Seq<Seq<char>> {
    let (done, current) = nul_split(s);
    if current.len() > 0 {
        done.push(current)
    } else {
        done
    }
}

/// The non-empty records of `-z` output.
pub fn records_of(output: &str) -> (r: Vec<Vec<char>>)
    ensures
        names_of(r@) == nul_records(output@),
{
    let v = chars_of(output);
    let mut done: Vec<Vec<char>> = Vec::new();
    let mut current: Vec<char> = Vec::new();
    let mut i: usize = 0;
    while i < v.len()
        invariant
            i <= v.len(),
            (names_of(done@), current@) == nul_split(v@.take(i as int)),
        decreases v.len() - i,
    {
        assert(v@.take(i + 1).drop_last() =~= v@.take(i as int));
        let c = v[i];
        if c == '\0' {
            if current.len() > 0 {
                done.push(current);
                assert(names_of(done@) =~= nul_split(v@.take(i + 1)).0);
            }
            current = Vec::new();
            assert(current@ =~= nul_split(v@.take(i + 1)).1);
        } else {
            current.push(c);
        }
        i += 1;
    }
    assert(v@.take(v.len() as int) =~= v@);
    if current.len() > 0 {
        done.push(current);
        assert(names_of(done@) =~= nul_records(output@));
    }
    done
}

/// What a status branch header says of the head: a branch, an unborn
/// branch, or a detached head whose commit takes another query.
pub enum HeaderHead {
    Branch(String),
    Unborn(String),
    Detached,
}

/// The model of a branch header's head.
pub enum HeaderView {
    Branch(Seq<char>),
    Unborn(Seq<char>),
    Detached,
}

impl View for HeaderHead {
    type V = HeaderView;

    open spec fn view(&self) -> HeaderView {
        match self {
            HeaderHead::Branch(b) => HeaderView::Branch(b@),
            HeaderHead::Unborn(b) => HeaderView::Unborn(b@),
            HeaderHead::Detached => HeaderView::Detached,
        }
    }
}

/// The head a porcelain branch header (`## ...`) names: `No commits yet on
/// <b>` is an unborn branch, `HEAD (no branch)` or `HEAD detached...` a
/// detached head, anything else a branch whose name ends before `...`; a
/// header without `## ` has an unexpected format.
pub open spec fn header_head(header: Seq<char>) -> Option<HeaderView> {
    if !"## "@.is_prefix_of(header) {
        None
    } else {
        let rest = header.skip(3);
        if "No commits yet on "@.is_prefix_of(rest) {
            Some(HeaderView::Unborn(rest.skip(18)))
        } else if rest == "HEAD (no branch)"@ || "HEAD detached"@.is_prefix_of(rest) {
            Some(HeaderView::Detached)
        } else {
            match find_seq(rest, "..."@, 0) {
                Some(k) => Some(HeaderView::Branch(rest.take(k))),
                None => Some(HeaderView::Branch(rest)),
            }
        }
    }
}

/// The error of a branch header of unexpected format.
pub open spec fn unexpected_header() -> Seq<char> {
    "fatal: git status branch header had unexpected format"@
}

/// Parses a porcelain branch header.
pub fn parse_branch_header(header: &Vec<char>) -> (r: Result<HeaderHead, String>)
    ensures
        match header_head(header@) {
            Some(h) => r matches Ok(v) && v@ == h,
            None => r matches Err(e) && e@ == unexpected_header(),
        },
{
    proof {
        reveal_strlit("## ");
        reveal_strlit("No commits yet on ");
        reveal_strlit("HEAD (no branch)");
        reveal_strlit("HEAD detached");
        reveal_strlit("...");
    }
    if !starts_with(header, &lit("## ")) {
        return Err(string_of(&lit("fatal: git status branch header had unexpected format")));
    }
    let rest = slice_of(header, 3, header.len());
    assert(rest@ =~= header@.skip(3));
    if starts_with(&rest, &lit("No commits yet on ")) {
        let b = slice_of(&rest, 18, rest.len());
        assert(b@ =~= rest@.skip(18));
        return Ok(HeaderHead::Unborn(string_of(&b)));
    }
    if same(&rest, &lit("HEAD (no branch)")) || starts_with(&rest, &lit("HEAD detached")) {
        return Ok(HeaderHead::Detached);
    }
    match find_seq_of(&rest, &lit("..."), 0) {
        Some(k) => {
            proof {
                lemma_find_seq(rest@, "..."@, 0);
            }
            let b = slice_of(&rest, 0, k);
            assert(b@ =~= rest@.take(k as int));
            Ok(HeaderHead::Branch(string_of(&b)))
        },
        None => Ok(HeaderHead::Branch(string_of(&rest))),
    }
}

/// The label of a change in status output.
pub open spec fn change_label(change: FileChange) -> Seq<char> {
    match change {
        FileChange::NewFile => "new file:"@,
        FileChange::Modified => "modified:"@,
        FileChange::Deleted => "deleted:"@,
        FileChange::Renamed => "renamed:"@,
        FileChange::TypeChange => "typechange:"@,
        FileChange::Copied => "copied:"@,
    }
}

/// The label of a change in status output.
pub fn file_change_label(change: FileChange) -> (r: Vec<char>)
    ensures
        r@ == change_label(change),
        r@.len() <= 12,
{
    proof {
        reveal_strlit("new file:");
        reveal_strlit("modified:");
        reveal_strlit("deleted:");
        reveal_strlit("renamed:");
        reveal_strlit("typechange:");
        reveal_strlit("copied:");
    }
    match change {
        FileChange::NewFile => lit("new file:"),
        FileChange::Modified => lit("modified:"),
        FileChange::Deleted => lit("deleted:"),
        FileChange::Renamed => lit("renamed:"),
        FileChange::TypeChange => lit("typechange:"),
        FileChange::Copied => lit("copied:"),
    }
}

/// `n` spaces.
pub open spec fn spaces(n: int) -> Seq<char> {
    Seq::new(n as nat, |i: int| ' ')
}

/// The line of one changed path: a tab, the painted label padded to twelve
/// columns, the painted path.
pub open spec fn path_line(entry: (Seq<char>, FileChange), style: Paint) -> Seq<char> {
    "\t"@ + painted(style, change_label(entry.1)) + spaces(12 - change_label(entry.1).len())
        + painted(style, entry.0) + "\n"@
}

/// The lines of the changed paths.
pub open spec fn path_lines(rs: Seq<(Seq<char>, FileChange)>, style: Paint) -> Seq<char>
    decreases rs.len(),
{
    if rs.len() == 0 {
        Seq::empty()
    } else {
        path_lines(rs.drop_last(), style) + path_line(rs.last(), style)
    }
}

/// Each hint on a line of its own.
pub open spec fn hint_lines(hints: Seq<Seq<char>>) -> Seq<char>
    decreases hints.len(),
{
    if hints.len() == 0 {
        Seq::empty()
    } else {
        hint_lines(hints.drop_last()) + hints.last() + "\n"@
    }
}

/// A section of changed paths: nothing when there are none, else a blank
/// line, the heading, the hints and the paths.
pub open spec fn section_text(
    rs: Seq<(Seq<char>, FileChange)>,
    heading: Seq<char>,
    hints: Seq<Seq<char>>,
    style: Paint,
) -> Seq<char> {
    if rs.len() == 0 {
        Seq::empty()
    } else {
        "\n"@ + heading + "\n"@ + hint_lines(hints) + path_lines(rs, style)
    }
}

/// The index of the first entry of `sorted`, from `j` on, whose path comes
/// after `key`; the length when there is none.
pub open spec fn first_after(sorted: Seq<(Seq<char>, FileChange)>, key: Seq<char>, j: int) -> int
    decreases sorted.len() - j,
{
    if j < 0 || j >= sorted.len() {
        sorted.len() as int
    } else if lex_lt(key, sorted[j].0) {
        j
    } else {
        first_after(sorted, key, j + 1)
    }
}

proof fn lemma_first_after(sorted: Seq<(Seq<char>, FileChange)>, key: Seq<char>, j: int)
    requires
        0 <= j <= sorted.len(),
    ensures
        j <= first_after(sorted, key, j) <= sorted.len(),
    decreases sorted.len() - j,
{
    if j < sorted.len() && !lex_lt(key, sorted[j].0) {
        lemma_first_after(sorted, key, j + 1);
    }
}

/// The entries sorted by path, entries with equal paths in their first
/// order: each entry goes after every earlier one whose path does not come
/// after its own.
pub open spec fn sorted_by_path(s: Seq<(Seq<char>, FileChange)>) -> Seq<(Seq<char>, FileChange)>
    decreases s.len(),
{
    if s.len() == 0 {
        Seq::empty()
    } else {
        let sorted = sorted_by_path(s.drop_last());
        sorted.insert(first_after(sorted, s.last().0, 0), s.last())
    }
}

proof fn lemma_sorted_len(s: Seq<(Seq<char>, FileChange)>)
    ensures
        sorted_by_path(s).len() == s.len(),
    decreases s.len(),
{
    if s.len() > 0 {
        lemma_sorted_len(s.drop_last());
        lemma_first_after(sorted_by_path(s.drop_last()), s.last().0, 0);
    }
}

proof fn lemma_first_after_bounds(sorted: Seq<(Seq<char>, FileChange)>, key: Seq<char>, j: int)
    requires
        0 <= j <= sorted.len(),
    ensures
        forall|k: int| j <= k < first_after(sorted, key, j) ==> !lex_lt(key, #[trigger] sorted[k].0),
        first_after(sorted, key, j) < sorted.len() ==> lex_lt(key, sorted[first_after(sorted, key, j)].0),
    decreases sorted.len() - j,
{
    if j < sorted.len() && !lex_lt(key, sorted[j].0) {
        lemma_first_after_bounds(sorted, key, j + 1);
    }
}

/// Whether entries are in path order.
pub open spec fn path_ordered(s: Seq<(Seq<char>, FileChange)>) -> bool {
    forall|i: int, j: int| 0 <= i < j < s.len() ==> !lex_lt(#[trigger] s[j].0, #[trigger] s[i].0)
}

/// Status lists a section's paths in path order, each entry exactly once:
/// the sorted entries are the entries, rearranged into path order.
pub proof fn sections_list_paths_in_order(s: Seq<(Seq<char>, FileChange)>)
    ensures
        sorted_by_path(s).to_multiset() == s.to_multiset(),
        path_ordered(sorted_by_path(s)),
    decreases s.len(),
{
    if s.len() == 0 {
        assert(sorted_by_path(s) =~= s);
        return;
    }
    let prev = s.drop_last();
    sections_list_paths_in_order(prev);
    let sorted = sorted_by_path(prev);
    let x = s.last();
    let key = x.0;
    let j = first_after(sorted, key, 0);
    lemma_first_after(sorted, key, 0);
    lemma_first_after_bounds(sorted, key, 0);
    let r = sorted.insert(j, x);
    assert(sorted_by_path(s) == r);
    vstd::seq_lib::to_multiset_insert(sorted, j, x);
    vstd::seq_lib::to_multiset_build(prev, x);
    assert(s =~= prev.push(x));
    assert forall|a: int, b: int| 0 <= a < b < r.len() implies !lex_lt(#[trigger] r[b].0, #[trigger] r[a].0) by {
        if b < j {
            assert(r[a] == sorted[a] && r[b] == sorted[b]);
        } else if b == j {
            assert(r[a] == sorted[a] && r[b] == x);
        } else if a < j {
            assert(r[a] == sorted[a] && r[b] == sorted[b - 1]);
        } else if a == j {
            assert(r[a] == x && r[b] == sorted[b - 1]);
            assert(lex_lt(key, sorted[j].0));
            if lex_lt(sorted[b - 1].0, key) {
                crate::text::lemma_lex_transitive(sorted[b - 1].0, key, sorted[j].0);
                if b - 1 == j {
                    crate::text::lemma_lex_irreflexive(sorted[j].0);
                } else {
                    assert(!lex_lt(sorted[b - 1].0, sorted[j].0));
                }
            }
        } else {
            assert(r[a] == sorted[a - 1] && r[b] == sorted[b - 1]);
        }
    }
}

/// The shown paths of a section, with their changes.
pub struct ShownEntry {
    pub path: Vec<char>,
    pub change: FileChange,
}

pub open spec fn shown(v: Seq<ShownEntry>) -> Seq<(Seq<char>, FileChange)> {
    v.map_values(|e: ShownEntry| (e.path@, e.change))
}

/// The entries sorted by path, keeping the order of equal paths.
pub(crate) fn sort_by_path(v: &Vec<ShownEntry>) -> (r: Vec<ShownEntry>)
    ensures
        shown(r@) == sorted_by_path(shown(v@)),
{
    let mut r: Vec<ShownEntry> = Vec::new();
    let mut i: usize = 0;
    while i < v.len()
        invariant
            i <= v.len(),
            shown(r@) == sorted_by_path(shown(v@).take(i as int)),
        decreases v.len() - i,
    {
        let key = &v[i].path;
        let ghost sorted = shown(r@);
        let mut j: usize = 0;
        while j < r.len() && !less_than(key, &r[j].path)
            invariant
                j <= r.len(),
                sorted == shown(r@),
                first_after(sorted, key@, 0) == first_after(sorted, key@, j as int),
            decreases r.len() - j,
        {
            j += 1;
        }
        let e = ShownEntry { path: crate::text::copy_chars(key), change: v[i].change };
        r.insert(j, e);
        proof {
            let t = shown(v@).take(i + 1);
            assert(t.drop_last() =~= shown(v@).take(i as int));
            assert(t.last() == (v@[i as int].path@, v@[i as int].change));
            assert(first_after(sorted, key@, j as int) == j as int);
            assert(shown(r@) =~= sorted.insert(j as int, t.last()));
        }
        i += 1;
    }
    assert(shown(v@).take(v.len() as int) =~= shown(v@));
    r
}

/// The entries of one kind of a status: 0 staged, 1 unstaged, 2
/// untracked.
pub open spec fn kind_entries(st: RepoStatus, kind: int) -> Seq<(Seq<char>, FileChange)> {
    if kind == 0 {
        entries(st.staged_changes@)
    } else if kind == 1 {
        entries(st.unstaged_changes@)
    } else {
        entries(st.untracked_files@)
    }
}

/// Entries of the repository at `repo_path` with their paths as shown from
/// `working_dir`.
pub open spec fn shown_entries(
    repo_path: Seq<char>,
    es: Seq<(Seq<char>, FileChange)>,
    working_dir: Seq<char>,
) -> Seq<(Seq<char>, FileChange)> {
    es.map_values(|e: (Seq<char>, FileChange)| (shown_path(repo_path, working_dir, e.0), e.1))
}

/// The entries of one kind of the repositories at `idx`, in that order,
/// with their paths as shown from `working_dir`.
pub open spec fn collected(
    st: Seq<(Repo, RepoStatus)>,
    idx: Seq<usize>,
    kind: int,
    working_dir: Seq<char>,
) -> Seq<(Seq<char>, FileChange)>
    decreases idx.len(),
{
    if idx.len() == 0 {
        Seq::empty()
    } else {
        collected(st, idx.drop_last(), kind, working_dir) + shown_entries(
            st[idx.last() as int].0.path@,
            kind_entries(st[idx.last() as int].1, kind),
            working_dir,
        )
    }
}

fn entries_of_kind(st: &RepoStatus, kind: u8) -> (r: &Vec<FileEntry>)
    ensures
        entries(r@) == kind_entries(*st, kind as int),
{
    if kind == 0 {
        &st.staged_changes
    } else if kind == 1 {
        &st.unstaged_changes
    } else {
        &st.untracked_files
    }
}

/// The entries of one kind of the repositories at `idx`, shown from
/// `working_dir` and sorted by shown path.
fn collect_section(
    statuses: &Vec<(Repo, RepoStatus)>,
    idx: &Vec<usize>,
    kind: u8,
    working_dir: &str,
) -> (r: Vec<ShownEntry>)
    requires
        forall|k: int| 0 <= k < idx@.len() ==> idx@[k] < statuses@.len(),
    ensures
        shown(r@) == sorted_by_path(collected(statuses@, idx@, kind as int, working_dir@)),
{
    let mut all: Vec<ShownEntry> = Vec::new();
    let mut k: usize = 0;
    while k < idx.len()
        invariant
            k <= idx.len(),
            forall|m: int| 0 <= m < idx@.len() ==> idx@[m] < statuses@.len(),
            shown(all@) == collected(statuses@, idx@.take(k as int), kind as int, working_dir@),
        decreases idx.len() - k,
    {
        let (repo, st) = &statuses[idx[k]];
        let prefix = prefix_from(repo.path.as_str(), working_dir);
        let es = entries_of_kind(st, kind);
        let ghost before = shown(all@);
        let mut m: usize = 0;
        while m < es.len()
            invariant
                m <= es.len(),
                prefix@ == crate::paths::shown_prefix(repo.path@, working_dir@),
                shown(all@) == before + shown_entries(
                    repo.path@,
                    entries(es@).take(m as int),
                    working_dir@,
                ),
            decreases es.len() - m,
        {
            let p = show_path(&prefix, es[m].path.as_str());
            let ghost old_all = shown(all@);
            all.push(ShownEntry { path: p, change: es[m].change });
            assert(shown(all@) =~= old_all.push((p@, es@[m as int].change)));
            assert(entries(es@)[m as int] == (es@[m as int].path@, es@[m as int].change));
            assert(shown_entries(repo.path@, entries(es@).take(m + 1), working_dir@)
                =~= shown_entries(repo.path@, entries(es@).take(m as int), working_dir@).push(
                (p@, es@[m as int].change),
            ));
            assert(shown(all@) =~= before + shown_entries(
                repo.path@,
                entries(es@).take(m + 1),
                working_dir@,
            ));
            m += 1;
        }
        proof {
            assert(entries(es@).take(es.len() as int) =~= entries(es@));
            let t = idx@.take(k + 1);
            assert(t.drop_last() =~= idx@.take(k as int));
            assert(t.last() == idx@[k as int]);
        }
        k += 1;
    }
    assert(idx@.take(idx.len() as int) =~= idx@);
    sort_by_path(&all)
}

/// Appends a section of changed paths; whether it had any.
pub(crate) fn render_paths(
    out: &mut Vec<char>,
    heading: &Vec<char>,
    hints: &Vec<Vec<char>>,
    rendered: &Vec<ShownEntry>,
    style: Paint,
) -> (r: bool)
    ensures
        final(out)@ == old(out)@ + section_text(shown(rendered@), heading@, names(hints@), style),
        r == (rendered@.len() > 0),
{
    if rendered.len() == 0 {
        assert(final(out)@ =~= old(out)@ + section_text(shown(rendered@), heading@, names(hints@), style));
        return false;
    }
    let ghost start = out@;
    out.push('\n');
    extend(out, heading);
    out.push('\n');
    proof {
        reveal_strlit("\n");
        assert(names(hints@).take(0) =~= Seq::<Seq<char>>::empty());
        assert(out@ =~= start + "\n"@ + heading@ + "\n"@ + hint_lines(names(hints@).take(0)));
    }
    let mut h: usize = 0;
    while h < hints.len()
        invariant
            h <= hints.len(),
            out@ == start + "\n"@ + heading@ + "\n"@ + hint_lines(names(hints@).take(h as int)),
        decreases hints.len() - h,
    {
        extend(out, &hints[h]);
        out.push('\n');
        proof {
            let t = names(hints@).take(h + 1);
            assert(t.drop_last() =~= names(hints@).take(h as int));
            assert(t.last() == hints@[h as int]@);
            reveal_strlit("\n");
        }
        h += 1;
    }
    assert(names(hints@).take(hints.len() as int) =~= names(hints@));
    let ghost head = out@;
    let mut k: usize = 0;
    while k < rendered.len()
        invariant
            k <= rendered.len(),
            out@ == head + path_lines(shown(rendered@).take(k as int), style),
        decreases rendered.len() - k,
    {
        let label = file_change_label(rendered[k].change);
        out.push('\t');
        let ghost before_line = out@;
        extend(out, &paint(style, &label));
        proof {
            reveal_strlit("\t");
            assert(spaces(0) =~= Seq::<char>::empty());
            assert(before_line =~= head + path_lines(shown(rendered@).take(k as int), style) + "\t"@);
        }
        let mut pad: usize = label.len();
        while pad < 12
            invariant
                label@.len() <= pad <= 12,
                out@ == head + path_lines(shown(rendered@).take(k as int), style) + "\t"@
                    + painted(style, label@) + spaces(pad - label@.len()),
            decreases 12 - pad,
        {
            out.push(' ');
            assert(spaces(pad + 1 - label@.len()) =~= spaces(pad - label@.len()).push(' '));
            pad += 1;
        }
        extend(out, &paint(style, &rendered[k].path));
        out.push('\n');
        proof {
            let t = shown(rendered@).take(k + 1);
            assert(t.drop_last() =~= shown(rendered@).take(k as int));
            assert(t.last() == (rendered@[k as int].path@, rendered@[k as int].change));
            reveal_strlit("\t");
            reveal_strlit("\n");
            assert(out@ =~= head + path_lines(t, style));
        }
        k += 1;
    }
    proof {
        assert(shown(rendered@).take(rendered.len() as int) =~= shown(rendered@));
        assert(out@ =~= start + section_text(shown(rendered@), heading@, names(hints@), style));
    }
    true
}

/// Whether any of the repositories at `idx` is on an unborn branch.
pub open spec fn any_unborn(st: Seq<(Repo, RepoStatus)>, idx: Seq<usize>) -> bool
    decreases idx.len(),
{
    if idx.len() == 0 {
        false
    } else {
        any_unborn(st, idx.drop_last()) || st[idx.last() as int].1.head is Unborn
    }
}

/// The hint of the staged section.
pub open spec fn staged_hints(dn: Seq<char>) -> Seq<Seq<char>> {
    seq!["  (use \""@ + dn + " restore --staged <file>...\" to unstage)"@]
}

/// The hints of the unstaged section.
pub open spec fn unstaged_hints(dn: Seq<char>) -> Seq<Seq<char>> {
    seq![
        "  (use \""@ + dn + " add <file>...\" to update what will be committed)"@,
        "  (use \""@ + dn + " restore <file>...\" to discard changes in working directory)"@,
    ]
}

/// The hint of the untracked section.
pub open spec fn untracked_hints(dn: Seq<char>) -> Seq<Seq<char>> {
    seq!["  (use \""@ + dn + " add <file>...\" to include in what will be committed)"@]
}

/// The body of a group of repositories: the unborn notice, the staged,
/// unstaged and untracked sections, and a blank line, or the clean summary
/// when there is nothing to show.
pub open spec fn group_text(
    st: Seq<(Repo, RepoStatus)>,
    idx: Seq<usize>,
    dn: Seq<char>,
    wd: Seq<char>,
) -> Seq<char> {
    let e0 = sorted_by_path(collected(st, idx, 0, wd));
    let e1 = sorted_by_path(collected(st, idx, 1, wd));
    let e2 = sorted_by_path(collected(st, idx, 2, wd));
    let unborn = any_unborn(st, idx);
    (if unborn {
        "\nNo commits yet\n"@
    } else {
        Seq::empty()
    }) + section_text(e0, "Changes to be committed:"@, staged_hints(dn), Paint::Staged)
        + section_text(e1, "Changes not staged for commit:"@, unstaged_hints(dn), Paint::Changed)
        + section_text(e2, "Untracked files:"@, untracked_hints(dn), Paint::Changed) + (
    if e0.len() > 0 || e1.len() > 0 || e2.len() > 0 || unborn {
        "\n"@
    } else {
        "\nnothing to commit, working tree clean\n\n"@
    })
}

fn hint(dn: &Vec<char>, before: &str, after: &str) -> (r: Vec<char>)
    ensures
        r@ == before@ + dn@ + after@,
{
    let mut r = lit(before);
    extend(&mut r, dn);
    extend(&mut r, &lit(after));
    r
}

/// Appends the body of a group of repositories.
#[verifier::spinoff_prover]
#[verifier::rlimit(60)]
fn render_group(
    out: &mut Vec<char>,
    statuses: &Vec<(Repo, RepoStatus)>,
    idx: &Vec<usize>,
    dn: &Vec<char>,
    working_dir: &str,
)
    requires
        forall|k: int| 0 <= k < idx@.len() ==> idx@[k] < statuses@.len(),
    ensures
        final(out)@ == old(out)@ + group_text(statuses@, idx@, dn@, working_dir@),
{
    let ghost start = out@;
    let mut unborn = false;
    let mut k: usize = 0;
    while k < idx.len()
        invariant
            k <= idx.len(),
            forall|m: int| 0 <= m < idx@.len() ==> idx@[m] < statuses@.len(),
            unborn == any_unborn(statuses@, idx@.take(k as int)),
        decreases idx.len() - k,
    {
        let is_unborn = match &statuses[idx[k]].1.head {
            Head::Unborn(_) => true,
            _ => false,
        };
        unborn = unborn || is_unborn;
        assert(idx@.take(k + 1).drop_last() =~= idx@.take(k as int));
        k += 1;
    }
    assert(idx@.take(idx.len() as int) =~= idx@);
    if unborn {
        extend(out, &lit("\nNo commits yet\n"));
    }
    let e0 = collect_section(statuses, idx, 0, working_dir);
    let e1 = collect_section(statuses, idx, 1, working_dir);
    let e2 = collect_section(statuses, idx, 2, working_dir);
    let h0 = vec![hint(dn, "  (use \"", " restore --staged <file>...\" to unstage)")];
    let h1 = vec![
        hint(dn, "  (use \"", " add <file>...\" to update what will be committed)"),
        hint(dn, "  (use \"", " restore <file>...\" to discard changes in working directory)"),
    ];
    let h2 = vec![hint(dn, "  (use \"", " add <file>...\" to include in what will be committed)")];
    assert(names(h0@) =~= staged_hints(dn@));
    assert(names(h1@) =~= unstaged_hints(dn@));
    assert(names(h2@) =~= untracked_hints(dn@));
    let ghost a0 = out@;
    let staged = render_paths(out, &lit("Changes to be committed:"), &h0, &e0, Paint::Staged);
    let ghost a1 = out@;
    let unstaged = render_paths(
        out,
        &lit("Changes not staged for commit:"),
        &h1,
        &e1,
        Paint::Changed,
    );
    let ghost a2 = out@;
    let untracked = render_paths(out, &lit("Untracked files:"), &h2, &e2, Paint::Changed);
    let ghost a3 = out@;
    if staged || unstaged || untracked || unborn {
        out.push('\n');
        proof {
            reveal_strlit("\n");
        }
    } else {
        extend(out, &lit("\nnothing to commit, working tree clean\n\n"));
    }
    proof {
        let gs = group_text(statuses@, idx@, dn@, working_dir@);
        let notice = if unborn { "\nNo commits yet\n"@ } else { Seq::<char>::empty() };
        assert(a0 =~= start + notice);
        assert(a3 =~= start + notice + section_text(
            shown(e0@),
            "Changes to be committed:"@,
            staged_hints(dn@),
            Paint::Staged,
        ) + section_text(
            shown(e1@),
            "Changes not staged for commit:"@,
            unstaged_hints(dn@),
            Paint::Changed,
        ) + section_text(shown(e2@), "Untracked files:"@, untracked_hints(dn@), Paint::Changed));
        assert(out@ =~= start + gs);
    }
}

/// The branch names of the repositories whose head is on a branch,
/// unborn or not, in repository order.
pub open spec fn branch_names(st: Seq<(Repo, RepoStatus)>) -> Seq<Seq<char>>
    decreases st.len(),
{
    if st.len() == 0 {
        Seq::empty()
    } else {
        let rest = branch_names(st.drop_last());
        match st.last().1.head {
            Head::Branch(b) => rest.push(b@),
            Head::Unborn(b) => rest.push(b@),
            Head::Detached(_) => rest,
        }
    }
}

/// Whether a status belongs to the group of branch `b`, unborn or not.
pub open spec fn in_group(st: RepoStatus, b: Seq<char>, unborn: bool) -> bool {
    match st.head {
        Head::Branch(x) => !unborn && x@ == b,
        Head::Unborn(x) => unborn && x@ == b,
        Head::Detached(_) => false,
    }
}

/// The indices, among the first `m`, of the repositories in the group of
/// branch `b`.
pub open spec fn group_members(st: Seq<(Repo, RepoStatus)>, b: Seq<char>, unborn: bool, m: int) -> Seq<
    usize,
>
    decreases m,
{
    if m <= 0 {
        Seq::empty()
    } else {
        let rest = group_members(st, b, unborn, m - 1);
        if in_group(st[m - 1].1, b, unborn) {
            rest.push((m - 1) as usize)
        } else {
            rest
        }
    }
}

/// The names of the repositories at `idx`.
pub open spec fn names_at(st: Seq<(Repo, RepoStatus)>, idx: Seq<usize>) -> Seq<Seq<char>> {
    idx.map_values(|i: usize| st[i as int].0.name@)
}

/// The block of the group of branch `b`: nothing when the group is empty,
/// else the `On branch` line, with the repository suffix, and the group's
/// body.
pub open spec fn branch_block(
    st: Seq<(Repo, RepoStatus)>,
    b: Seq<char>,
    unborn: bool,
    dn: Seq<char>,
    wd: Seq<char>,
) -> Seq<char> {
    let idx = group_members(st, b, unborn, st.len() as int);
    if idx.len() == 0 {
        Seq::empty()
    } else {
        "On branch "@ + b + repo_suffix(names_at(st, idx), st.len()) + "\n"@ + group_text(
            st,
            idx,
            dn,
            wd,
        )
    }
}

/// The blocks of the branches, in order, committed before unborn.
pub open spec fn branch_blocks(
    st: Seq<(Repo, RepoStatus)>,
    keys: Seq<Seq<char>>,
    dn: Seq<char>,
    wd: Seq<char>,
) -> Seq<char>
    decreases keys.len(),
{
    if keys.len() == 0 {
        Seq::empty()
    } else {
        branch_blocks(st, keys.drop_last(), dn, wd) + branch_block(st, keys.last(), false, dn, wd)
            + branch_block(st, keys.last(), true, dn, wd)
    }
}

/// The blocks of the detached heads among the first `m` repositories, one
/// per repository.
pub open spec fn detached_blocks(st: Seq<(Repo, RepoStatus)>, m: int, dn: Seq<char>, wd: Seq<char>) -> Seq<
    char,
>
    decreases m,
{
    if m <= 0 {
        Seq::empty()
    } else {
        detached_blocks(st, m - 1, dn, wd) + detached_block(st, m - 1, dn, wd)
    }
}

/// The block of repository `i` when its head is detached: the `HEAD
/// detached at` line, with the repository suffix, and its body.
pub open spec fn detached_block(st: Seq<(Repo, RepoStatus)>, i: int, dn: Seq<char>, wd: Seq<char>) -> Seq<
    char,
> {
    match st[i].1.head {
        Head::Detached(h) => "HEAD detached at "@ + h@ + repo_suffix(seq![st[i].0.name@], st.len())
            + "\n"@ + group_text(st, seq![i as usize], dn, wd),
        _ => Seq::empty(),
    }
}

/// Appends the block of repository `i` when its head is detached.
fn render_detached_block(
    out: &mut Vec<char>,
    statuses: &Vec<(Repo, RepoStatus)>,
    i: usize,
    dn: &Vec<char>,
    working_dir: &str,
)
    requires
        i < statuses@.len(),
    ensures
        final(out)@ == old(out)@ + detached_block(statuses@, i as int, dn@, working_dir@),
{
    match &statuses[i].1.head {
        Head::Detached(h) => {
            let ghost before = out@;
            extend(out, &lit("HEAD detached at "));
            extend(out, &chars_of(h.as_str()));
            let one = vec![chars_of(statuses[i].0.name.as_str())];
            assert(names(one@) =~= seq![statuses@[i as int].0.name@]);
            extend(out, &repo_list_suffix(&one, statuses.len()));
            out.push('\n');
            let idx = vec![i];
            assert(idx@ =~= seq![i]);
            render_group(out, statuses, &idx, dn, working_dir);
            proof {
                reveal_strlit("\n");
                assert(out@ =~= before + detached_block(statuses@, i as int, dn@, working_dir@));
            }
        },
        _ => {
            assert(final(out)@ =~= old(out)@ + detached_block(statuses@, i as int, dn@, working_dir@));
        },
    }
}

/// The status of the repositories: a block per branch, in branch order,
/// then one per detached head, without a doubled final blank line.
pub open spec fn status_text(st: Seq<(Repo, RepoStatus)>, dn: Seq<char>, wd: Seq<char>) -> Seq<
    char,
> {
    let t = branch_blocks(st, sorted_set(branch_names(st)), dn, wd) + detached_blocks(
        st,
        st.len() as int,
        dn,
        wd,
    );
    if t.len() >= 2 && t.last() == '\n' && t[t.len() - 2] == '\n' {
        t.drop_last()
    } else {
        t
    }
}

fn group_of(statuses: &Vec<(Repo, RepoStatus)>, b: &Vec<char>, unborn: bool) -> (r: Vec<usize>)
    ensures
        r@ == group_members(statuses@, b@, unborn, statuses@.len() as int),
        forall|k: int| 0 <= k < r@.len() ==> r@[k] < statuses@.len(),
{
    let mut r: Vec<usize> = Vec::new();
    let mut i: usize = 0;
    while i < statuses.len()
        invariant
            i <= statuses.len(),
            r@ == group_members(statuses@, b@, unborn, i as int),
            forall|k: int| 0 <= k < r@.len() ==> r@[k] < i,
        decreases statuses.len() - i,
    {
        let member = match &statuses[i].1.head {
            Head::Branch(x) => !unborn && same(&chars_of(x.as_str()), b),
            Head::Unborn(x) => unborn && same(&chars_of(x.as_str()), b),
            Head::Detached(_) => false,
        };
        if member {
            r.push(i);
        }
        i += 1;
    }
    r
}

fn names_of_group(statuses: &Vec<(Repo, RepoStatus)>, idx: &Vec<usize>) -> (r: Vec<Vec<char>>)
    requires
        forall|k: int| 0 <= k < idx@.len() ==> idx@[k] < statuses@.len(),
    ensures
        names(r@) == names_at(statuses@, idx@),
{
    let mut r: Vec<Vec<char>> = Vec::new();
    let mut k: usize = 0;
    while k < idx.len()
        invariant
            k <= idx.len(),
            forall|m: int| 0 <= m < idx@.len() ==> idx@[m] < statuses@.len(),
            names(r@) == names_at(statuses@, idx@.take(k as int)),
        decreases idx.len() - k,
    {
        let ghost before = names(r@);
        let name = chars_of(statuses[idx[k]].0.name.as_str());
        r.push(name);
        let ghost j = idx@[k as int] as int;
        assert(names(r@) =~= before.push(statuses@[j].0.name@));
        assert(names_at(statuses@, idx@.take(k + 1)) =~= names_at(statuses@, idx@.take(k as int)).push(
            statuses@[j].0.name@,
        ));
        k += 1;
    }
    assert(idx@.take(idx.len() as int) =~= idx@);
    r
}

fn branch_names_of(statuses: &Vec<(Repo, RepoStatus)>) -> (r: Vec<Vec<char>>)
    ensures
        names(r@) == branch_names(statuses@),
{
    let mut r: Vec<Vec<char>> = Vec::new();
    let mut i: usize = 0;
    while i < statuses.len()
        invariant
            i <= statuses.len(),
            names(r@) == branch_names(statuses@.take(i as int)),
        decreases statuses.len() - i,
    {
        assert(statuses@.take(i + 1).drop_last() =~= statuses@.take(i as int));
        match &statuses[i].1.head {
            Head::Branch(b) => r.push(chars_of(b.as_str())),
            Head::Unborn(b) => r.push(chars_of(b.as_str())),
            Head::Detached(_) => {},
        }
        assert(names(r@) =~= branch_names(statuses@.take(i + 1)));
        i += 1;
    }
    assert(statuses@.take(statuses.len() as int) =~= statuses@);
    r
}

/// Appends the block of the group of branch `b`.
fn render_branch_block(
    out: &mut Vec<char>,
    statuses: &Vec<(Repo, RepoStatus)>,
    b: &Vec<char>,
    unborn: bool,
    dn: &Vec<char>,
    working_dir: &str,
)
    ensures
        final(out)@ == old(out)@ + branch_block(statuses@, b@, unborn, dn@, working_dir@),
{
    let idx = group_of(statuses, b, unborn);
    if idx.len() == 0 {
        assert(final(out)@ =~= old(out)@ + branch_block(statuses@, b@, unborn, dn@, working_dir@));
        return;
    }
    let ghost start = out@;
    extend(out, &lit("On branch "));
    extend(out, b);
    extend(out, &repo_list_suffix(&names_of_group(statuses, &idx), statuses.len()));
    out.push('\n');
    proof {
        reveal_strlit("\n");
    }
    render_group(out, statuses, &idx, dn, working_dir);
    assert(out@ =~= start + branch_block(statuses@, b@, unborn, dn@, working_dir@));
}

/// Renders the working tree status of the repositories, grouped by
/// branch, with hints naming the command as `display_name` and paths shown
/// from `working_dir`.
#[verifier::spinoff_prover]
#[verifier::rlimit(60)]
pub fn render(statuses: &Vec<(Repo, RepoStatus)>, display_name: &str, working_dir: &str) -> (r:
    String)
    ensures
        r@ == status_text(statuses@, display_name@, working_dir@),
{
    let dn = chars_of(display_name);
    let ks = sorted_distinct(&branch_names_of(statuses));
    let mut out: Vec<char> = Vec::new();
    let mut k: usize = 0;
    while k < ks.len()
        invariant
            k <= ks.len(),
            dn@ == display_name@,
            names(ks@) == sorted_set(branch_names(statuses@)),
            out@ == branch_blocks(statuses@, names(ks@).take(k as int), dn@, working_dir@),
        decreases ks.len() - k,
    {
        render_branch_block(&mut out, statuses, &ks[k], false, &dn, working_dir);
        render_branch_block(&mut out, statuses, &ks[k], true, &dn, working_dir);
        proof {
            let t = names(ks@).take(k + 1);
            assert(t.drop_last() =~= names(ks@).take(k as int));
            assert(t.last() == ks@[k as int]@);
        }
        k += 1;
    }
    assert(names(ks@).take(ks.len() as int) =~= names(ks@));
    let ghost blocks = out@;
    let mut i: usize = 0;
    while i < statuses.len()
        invariant
            i <= statuses.len(),
            dn@ == display_name@,
            out@ == blocks + detached_blocks(statuses@, i as int, dn@, working_dir@),
        decreases statuses.len() - i,
    {
        render_detached_block(&mut out, statuses, i, &dn, working_dir);
        i += 1;
    }
    let ghost t = out@;
    assert(t == branch_blocks(statuses@, sorted_set(branch_names(statuses@)), dn@, working_dir@)
        + detached_blocks(statuses@, statuses@.len() as int, dn@, working_dir@));
    if out.len() >= 2 && out[out.len() - 1] == '\n' && out[out.len() - 2] == '\n' {
        out.pop();
        assert(out@ =~= t.drop_last());
    }
    string_of(&out)
}

/// The arguments of the status query.
pub open spec fn status_query() -> Seq<Seq<char>> {
    seq!["status"@, "--porcelain=v1"@, "-z"@, "--branch"@, "--no-ahead-behind"@]
}

/// The arguments of the status query.
pub fn status_args() -> (r: Vec<String>)
    ensures
        views(r@) == status_query(),
{
    let r = args_of(&vec!["status", "--porcelain=v1", "-z", "--branch", "--no-ahead-behind"]);
    assert(views(r@) =~= status_query());
    r
}

/// The arguments of the query for a detached head's abbreviated commit.
pub open spec fn detached_query() -> Seq<Seq<char>> {
    seq!["rev-parse"@, "--short=8"@, "HEAD"@]
}

/// The arguments of the query for a detached head's abbreviated commit.
pub fn detached_head_args() -> (r: Vec<String>)
    ensures
        views(r@) == detached_query(),
{
    let r = args_of(&vec!["rev-parse", "--short=8", "HEAD"]);
    assert(views(r@) =~= detached_query());
    r
}

/// What reading a repository's status fails with, before the cause.
pub open spec fn status_context(path: Seq<char>) -> Seq<char> {
    "fatal: failed to read git status for '"@ + path + "'"@
}

/// The error of status output without a branch header.
pub open spec fn missing_header() -> Seq<char> {
    "fatal: git status did not return a branch header"@
}

/// A status as its records give it: the head the branch header names, and
/// the entries.
pub struct StatusRecords {
    pub head: HeaderHead,
    pub staged_changes: Vec<FileEntry>,
    pub unstaged_changes: Vec<FileEntry>,
    pub untracked_files: Vec<FileEntry>,
}

/// Whether the file records of successful status output can be read.
pub open spec fn status_output_readable(output: GitOutput) -> bool {
    let rs = nul_records(output.stdout@);
    output.succeeded() && rs.len() > 0 ==> records_well_formed(rs.skip(1))
}

/// The error reading status output gives, if any: the failed query (with
/// its context), a missing branch header, or a header of unexpected format.
pub open spec fn status_error(path: Seq<char>, output: GitOutput) -> Option<Seq<char>> {
    let rs = nul_records(output.stdout@);
    if !output.succeeded() {
        Some(status_context(path) + ": "@ + stdout_failure(status_query(), path, output.stderr@))
    } else if rs.len() == 0 {
        Some(missing_header())
    } else if header_head(rs[0]) is None {
        Some(unexpected_header())
    } else {
        None
    }
}

fn well_formed_records(records: &Vec<Vec<char>>, from: usize) -> (b: bool)
    requires
        from <= records@.len(),
    ensures
        b == records_well_formed(names_of(records@).skip(from as int)),
{
    let ghost all = names_of(records@);
    let mut i: usize = from;
    while i < records.len()
        invariant
            from <= i <= records.len(),
            all == names_of(records@),
            records_well_formed(all.skip(from as int)) == records_well_formed(all.skip(i as int)),
        decreases records.len() - i,
    {
        let ghost rs = all.skip(i as int);
        let r = &records[i];
        assert(rs[0] == r@);
        if is_short(r) {
            assert(rs.skip(1) =~= all.skip(i + 1));
            i += 1;
        } else {
            match find_path_start(r) {
                None => {
                    return false;
                },
                Some(_) => {},
            }
            proof {
                lemma_long_record(r@);
            }
            let x = r[0];
            let y = r[1];
            if (x == 'R' || x == 'C' || y == 'R' || y == 'C') && i + 1 < records.len() {
                assert(after_record(rs) =~= all.skip(i + 2));
                i += 2;
            } else {
                assert(after_record(rs) =~= all.skip(i + 1));
                i += 1;
            }
        }
    }
    assert(all.skip(i as int) =~= Seq::<Seq<char>>::empty());
    true
}

/// Whether the file records of status output can be read: `git status`
/// output is always readable, but a record whose path would start inside
/// a character cannot be read.
pub fn status_readable(output: &GitOutput) -> (b: bool)
    ensures
        b == status_output_readable(*output),
{
    if !output.success() {
        return true;
    }
    let records = records_of(output.stdout.as_str());
    if records.len() == 0 {
        return true;
    }
    well_formed_records(&records, 1)
}

/// Reads the status query's output of `repo`: its branch header and its
/// staged, unstaged and untracked entries.
pub fn read_status(repo: &Repo, output: &GitOutput) -> (r: Result<StatusRecords, String>)
    requires
        status_output_readable(*output),
    ensures
        match status_error(repo.path@, *output) {
            Some(e) => r matches Err(m) && m@ == e,
            None => r matches Ok(s) && {
                let rs = nul_records(output.stdout@);
                let p = parsed_records(rs.skip(1));
                &&& Some(s.head@) == header_head(rs[0])
                &&& entries(s.staged_changes@) == p.0
                &&& entries(s.unstaged_changes@) == p.1
                &&& entries(s.untracked_files@) == p.2
            },
        },
{
    let path = repo.path.as_str();
    let args = status_args();
    match stdout_or_error(&args, path, output) {
        Err(e) => {
            let mut m = lit("fatal: failed to read git status for '");
            extend(&mut m, &chars_of(path));
            extend(&mut m, &lit("': "));
            extend(&mut m, &chars_of(e.as_str()));
            proof {
                reveal_strlit("'");
                reveal_strlit(": ");
                reveal_strlit("': ");
                assert(m@ =~= status_context(repo.path@) + ": "@ + stdout_failure(
                    status_query(),
                    repo.path@,
                    output.stderr@,
                ));
            }
            Err(string_of(&m))
        },
        Ok(stdout) => {
            let records = records_of(stdout.as_str());
            if records.len() == 0 {
                return Err(string_of(&lit("fatal: git status did not return a branch header")));
            }
            let head = match parse_branch_header(&records[0]) {
                Ok(h) => h,
                Err(e) => {
                    return Err(e);
                },
            };
            let mut rest: Vec<Vec<char>> = Vec::new();
            let mut i: usize = 1;
            while i < records.len()
                invariant
                    1 <= i <= records.len(),
                    names_of(rest@) == names_of(records@).subrange(1, i as int),
                decreases records.len() - i,
            {
                let ghost before = names_of(rest@);
                let c = crate::text::copy_chars(&records[i]);
                rest.push(c);
                assert(names_of(rest@) =~= before.push(records@[i as int]@));
                assert(names_of(records@).subrange(1, i + 1) =~= names_of(records@).subrange(
                    1,
                    i as int,
                ).push(records@[i as int]@));
                i += 1;
            }
            assert(names_of(rest@) =~= names_of(records@).skip(1));
            let (staged, unstaged, untracked) = parse_file_records(&rest);
            Ok(
                StatusRecords {
                    head,
                    staged_changes: staged,
                    unstaged_changes: unstaged,
                    untracked_files: untracked,
                },
            )
        },
    }
}

/// The head a branch header names, unless it is detached, whose commit
/// takes the detached-head query.
pub fn known_head(h: &HeaderHead) -> (r: Option<Head>)
    ensures
        match h@ {
            HeaderView::Branch(b) => r matches Some(Head::Branch(x)) && x@ == b,
            HeaderView::Unborn(b) => r matches Some(Head::Unborn(x)) && x@ == b,
            HeaderView::Detached => r is None,
        },
{
    match h {
        HeaderHead::Branch(b) => Some(Head::Branch(string_of(&chars_of(b.as_str())))),
        HeaderHead::Unborn(b) => Some(Head::Unborn(string_of(&chars_of(b.as_str())))),
        HeaderHead::Detached => None,
    }
}

/// The detached head of `repo` from the detached-head query's output: its
/// trimmed abbreviated commit, or the error of the failed query.
pub fn detached_head(repo: &Repo, output: &GitOutput) -> (r: Result<Head, String>)
    ensures
        output.succeeded() ==> (r matches Ok(Head::Detached(h)) && h@ == trim(output.stdout@)),
        !output.succeeded() ==> (r matches Err(e) && e@ == status_context(repo.path@) + ": "@
            + stdout_failure(detached_query(), repo.path@, output.stderr@)),
{
    let args = detached_head_args();
    match stdout_or_error(&args, repo.path.as_str(), output) {
        Ok(out) => Ok(Head::Detached(string_of(&trimmed(&chars_of(out.as_str()))))),
        Err(e) => {
            let mut m = lit("fatal: failed to read git status for '");
            extend(&mut m, &chars_of(repo.path.as_str()));
            extend(&mut m, &lit("': "));
            extend(&mut m, &chars_of(e.as_str()));
            proof {
                reveal_strlit("'");
                reveal_strlit(": ");
                reveal_strlit("': ");
                assert(m@ =~= status_context(repo.path@) + ": "@ + stdout_failure(
                    detached_query(),
                    repo.path@,
                    output.stderr@,
                ));
            }
            Err(string_of(&m))
        },
    }
}

impl StatusRecords {
    /// The status, with the head resolved.
    pub fn into_status(self, head: Head) -> (r: RepoStatus)
        ensures
            r.head == head,
            r.staged_changes == self.staged_changes,
            r.unstaged_changes == self.unstaged_changes,
            r.untracked_files == self.untracked_files,
    {
        RepoStatus {
            head,
            staged_changes: self.staged_changes,
            unstaged_changes: self.unstaged_changes,
            untracked_files: self.untracked_files,
        }
    }
}

/// The status of the child repositories (their statuses in repository
/// order), rendered for the context's display name and working directory.
pub fn run(statuses: &Vec<(Repo, RepoStatus)>, context: &crate::cli::CliContext) -> (r:
    crate::render::Rendered)
    ensures
        r.stdout@ == status_text(statuses@, context.display_name@, context.working_dir@),
        r.stderr@.len() == 0,
        r.pager is None,
{
    crate::render::Rendered {
        stdout: render(statuses, context.display_name.as_str(), context.working_dir.as_str()),
        stderr: String::new(),
        pager: None,
    }
}

} // verus!
