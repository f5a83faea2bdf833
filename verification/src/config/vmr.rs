//! Finding the virtual monorepo a directory belongs to, and its child
//! repositories.

use crate::git::Repo;
use crate::group::{by_name, sort_by_name};
use crate::text::{chars_of, lit, same, string_of};
use vstd::prelude::*;

verus! {

/// The error when no ancestor holds the marker.
pub open spec fn not_a_vmr() -> Seq<char> {
    "not a virtual monorepo (or any of the parent directories): .gitvmr"@
}

/// The root of the virtual monorepo: the first of the start directory and
/// its ancestors (`ancestors`, nearest first) that holds a `.gitvmr`
/// marker (`has_marker[i]` for `ancestors[i]`).
pub fn find_vmr_root(ancestors: &Vec<String>, has_marker: &Vec<bool>) -> (r: Result<String, String>)
    requires
        ancestors@.len() == has_marker@.len(),
    ensures
        match r {
            Ok(root) => exists|k: int|
                0 <= k < ancestors@.len() && #[trigger] has_marker@[k] && (forall|j: int|
                    0 <= j < k ==> !has_marker@[j]) && root@ == ancestors@[k]@,
            Err(e) => e@ == not_a_vmr() && forall|k: int| 0 <= k < has_marker@.len() ==> !#[trigger] has_marker@[k],
        },
{
    let mut i: usize = 0;
    while i < ancestors.len()
        invariant
            i <= ancestors.len(),
            ancestors@.len() == has_marker@.len(),
            forall|j: int| 0 <= j < i ==> !#[trigger] has_marker@[j],
        decreases ancestors.len() - i,
    {
        if has_marker[i] {
            return Ok(string_of(&chars_of(ancestors[i].as_str())));
        }
        i += 1;
    }
    Err(string_of(&lit("not a virtual monorepo (or any of the parent directories): .gitvmr")))
}

/// An entry of the VMR root directory, as the filesystem reports it.
pub struct RootEntry {
    pub name: String,
    pub path: String,
    pub is_dir: bool,
    /// Whether it holds a `.git`
    pub has_git: bool,
}

/// Whether an entry of the root is a child repository: a directory other
/// than the marker that holds a `.git`.
pub open spec fn is_child(e: RootEntry) -> bool {
    e.is_dir && e.has_git && e.name@ != ".gitvmr"@
}

/// The child repositories among the entries, as name and path, in entry
/// order.
pub open spec fn children(es: Seq<RootEntry>) -> Seq<(String, String)>
    decreases es.len(),
{
    if es.len() == 0 {
        Seq::empty()
    } else {
        let rest = children(es.drop_last());
        if is_child(es.last()) {
            rest.push((es.last().name, es.last().path))
        } else {
            rest
        }
    }
}

/// Repositories as name and path.
pub open spec fn repo_pairs(rs: Seq<Repo>) -> Seq<(String, String)> {
    rs.map_values(|r: Repo| (r.name, r.path))
}

/// The child repositories of the root among its entries, in name order.
pub fn child_repos(entries: Vec<RootEntry>) -> (r: Vec<Repo>)
    ensures
        repo_pairs(r@) == by_name(children(entries@)),
{
    let ghost all = entries@;
    let n: usize = entries.len();
    assert(all.len() == n);
    let mut rest = entries;
    let mut found: Vec<(String, String)> = Vec::new();
    let mut i: usize = 0;
    while rest.len() > 0
        invariant
            i + rest.len() == all.len(),
            all.len() == n,
            rest@ == all.skip(i as int),
            found@ == children(all.take(i as int)),
        decreases rest.len(),
    {
        let e = rest.remove(0);
        proof {
            reveal_strlit(".gitvmr");
            let t = all.take(i + 1);
            assert(t.drop_last() =~= all.take(i as int));
            assert(t.last() == e);
        }
        if e.is_dir && e.has_git && !same(&chars_of(e.name.as_str()), &lit(".gitvmr")) {
            found.push((e.name, e.path));
        }
        assert(rest@ =~= all.skip(i + 1));
        i += 1;
    }
    assert(all.take(i as int) =~= all);
    let sorted = sort_by_name(found);
    let ghost target = sorted@;
    let m: usize = sorted.len();
    assert(target.len() == m);
    let mut left = sorted;
    let mut r: Vec<Repo> = Vec::new();
    let mut k: usize = 0;
    while left.len() > 0
        invariant
            k + left.len() == target.len(),
            target.len() == m,
            left@ == target.skip(k as int),
            repo_pairs(r@) == target.take(k as int),
        decreases left.len(),
    {
        let (name, path) = left.remove(0);
        let ghost before = repo_pairs(r@);
        r.push(Repo { name, path });
        assert(repo_pairs(r@) =~= before.push(target[k as int]));
        assert(target.take(k + 1) =~= target.take(k as int).push(target[k as int]));
        assert(left@ =~= target.skip(k + 1));
        k += 1;
    }
    assert(target.take(k as int) =~= target);
    r
}

} // verus!
