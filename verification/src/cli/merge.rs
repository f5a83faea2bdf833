//! The reports of the front end that reads the child repositories of a VMR
//! root directly: `merge` prints the children's successes and aggregates
//! their failures, each in repository name order; `restore` and `rm`
//! aggregate their failures the same way.

use crate::group::{by_name, sort_by_name};
use crate::paths::{file_name_of, path_file_name};
use crate::text::{chars_of, extend, lit, string_of};
use vstd::prelude::*;

verus! {

/// The report of a merge across the children: the lines printed for the
/// successes, and the errors of the failures.
pub struct MergeReport {
    pub stdout: String,
    pub errors: Vec<String>,
}

/// The successful results, each with its output, in their order.
pub open spec fn successes(rs: Seq<(String, Result<String, String>)>) -> Seq<(String, String)>
    decreases rs.len(),
{
    if rs.len() == 0 {
        Seq::empty()
    } else {
        let rest = successes(rs.drop_last());
        match rs.last().1 {
            Ok(out) => rest.push((rs.last().0, out)),
            Err(_) => rest,
        }
    }
}

/// The failed results, each with its message, in their order.
pub open spec fn failures(rs: Seq<(String, Result<String, String>)>) -> Seq<(String, String)>
    decreases rs.len(),
{
    if rs.len() == 0 {
        Seq::empty()
    } else {
        let rest = failures(rs.drop_last());
        match rs.last().1 {
            Ok(_) => rest,
            Err(m) => rest.push((rs.last().0, m)),
        }
    }
}

/// A text attributed to its repository: `<text> (<repo>)`.
pub open spec fn attributed(e: (String, String)) -> Seq<char> {
    e.1@ + " ("@ + e.0@ + ")"@
}

/// The lines of the successes, each attributed to its repository.
pub open spec fn success_lines(s: Seq<(String, String)>) -> Seq<char>
    decreases s.len(),
{
    if s.len() == 0 {
        Seq::empty()
    } else {
        success_lines(s.drop_last()) + attributed(s.last()) + "\n"@
    }
}

fn attribute(e: &(String, String)) -> (r: Vec<char>)
    ensures
        r@ == attributed(*e),
{
    let mut r = chars_of(e.1.as_str());
    extend(&mut r, &lit(" ("));
    extend(&mut r, &chars_of(e.0.as_str()));
    extend(&mut r, &lit(")"));
    r
}

/// Reports the merge results of the children (each repository's name and
/// its output or failure message): the successes' outputs, one line each,
/// and the failures' messages, each attributed to its repository, both in
/// repository name order.
pub fn merge_report(results: Vec<(String, Result<String, String>)>) -> (r: MergeReport)
    ensures
        r.stdout@ == success_lines(by_name(successes(results@))),
        r.errors@.len() == failures(results@).len(),
        forall|k: int|
            0 <= k < r.errors@.len() ==> #[trigger] r.errors@[k]@ == attributed(
                by_name(failures(results@))[k],
            ),
{
    let ghost all = results@;
    let n: usize = results.len();
    assert(all.len() == n);
    let mut rest = results;
    let mut ok: Vec<(String, String)> = Vec::new();
    let mut bad: Vec<(String, String)> = Vec::new();
    let mut i: usize = 0;
    while rest.len() > 0
        invariant
            i + rest.len() == all.len(),
            all.len() == n,
            rest@ == all.skip(i as int),
            ok@ == successes(all.take(i as int)),
            bad@ == failures(all.take(i as int)),
        decreases rest.len(),
    {
        let (name, result) = rest.remove(0);
        proof {
            let t = all.take(i + 1);
            assert(t.drop_last() =~= all.take(i as int));
            assert(t.last() == (name, result));
        }
        match result {
            Ok(out) => ok.push((name, out)),
            Err(m) => bad.push((name, m)),
        }
        assert(rest@ =~= all.skip(i + 1));
        i += 1;
    }
    assert(all.take(i as int) =~= all);
    let ok = sort_by_name(ok);
    let bad = sort_by_name(bad);
    assert(bad@.len() == by_name(failures(all)).len());
    let mut stdout: Vec<char> = Vec::new();
    let mut k: usize = 0;
    while k < ok.len()
        invariant
            k <= ok.len(),
            stdout@ == success_lines(ok@.take(k as int)),
        decreases ok.len() - k,
    {
        extend(&mut stdout, &attribute(&ok[k]));
        stdout.push('\n');
        proof {
            reveal_strlit("\n");
            let t = ok@.take(k + 1);
            assert(t.drop_last() =~= ok@.take(k as int));
            assert(t.last() == ok@[k as int]);
        }
        k += 1;
    }
    assert(ok@.take(ok.len() as int) =~= ok@);
    let errors = failure_messages(&bad);
    proof {
        lemma_by_name_len(failures(all));
    }
    MergeReport { stdout: string_of(&stdout), errors }
}

fn failure_messages(bad: &Vec<(String, String)>) -> (r: Vec<String>)
    ensures
        r@.len() == bad@.len(),
        forall|j: int| 0 <= j < r@.len() ==> #[trigger] r@[j]@ == attributed(bad@[j]),
{
    let mut errors: Vec<String> = Vec::new();
    let mut m: usize = 0;
    while m < bad.len()
        invariant
            m <= bad.len(),
            errors@.len() == m,
            forall|j: int| 0 <= j < m ==> #[trigger] errors@[j]@ == attributed(bad@[j]),
        decreases bad.len() - m,
    {
        errors.push(string_of(&attribute(&bad[m])));
        m += 1;
    }
    errors
}

/// The errors of the children that failed (each repository's name and its
/// failure message): each message attributed to its repository, in
/// repository name order.
pub fn aggregate_failures(failed: Vec<(String, String)>) -> (r: Vec<String>)
    ensures
        r@.len() == failed@.len(),
        forall|k: int| 0 <= k < r@.len() ==> #[trigger] r@[k]@ == attributed(by_name(failed@)[k]),
{
    proof {
        lemma_by_name_len(failed@);
    }
    failure_messages(&sort_by_name(failed))
}

/// The name of a child repository: the last component of its path.
pub fn repo_name(repo_path: &str) -> (r: Result<String, String>)
    ensures
        match path_file_name(repo_path@) {
            Some(n) => r matches Ok(s) && s@ == n,
            None => r matches Err(e) && e@ == "repository path has no valid UTF-8 file name"@,
        },
{
    match file_name_of(repo_path) {
        Some(n) => Ok(n),
        None => Err(string_of(&lit("repository path has no valid UTF-8 file name"))),
    }
}

proof fn lemma_by_name_len(s: Seq<(String, String)>)
    ensures
        by_name(s).len() == s.len(),
    decreases s.len(),
{
    if s.len() > 0 {
        lemma_by_name_len(s.drop_last());
        crate::group::lemma_entry_after(by_name(s.drop_last()), s.last().0@, 0);
    }
}

} // verus!
