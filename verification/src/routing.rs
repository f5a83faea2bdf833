//! Routing the paths a command is given to the child repositories: each
//! path, resolved against the working directory and cleaned, names the
//! whole virtual monorepo (its root), a path inside one child repository,
//! or nothing the commands can work on.

use crate::git::{views, Repo};
use crate::group::names;
use crate::paths::{join_path, path_join};
use crate::text::{chars_of, extend, find_char, lemma_find_from, find_from, lit, same, slice_of, starts_with, string_of};
use vstd::prelude::*;

verus! {

/// The path `path_clean::clean` gives, as text.
pub uninterp spec fn clean_path(path: Seq<char>) -> Seq<char>;

/// `path_clean::clean`, displayed: the path cleaned lexically (repeated
/// separators, `.` and resolvable `..` elements removed; `.` when nothing
/// is left). The contract names the result as a function of the path.
#[verifier::external_body]
fn cleaned(path: &str) -> (r: String)
    ensures
        r@ == clean_path(path@),
{
    path_clean::clean(path).display().to_string()
}

/// Where a path lies.
pub enum Route {
    /// The root of the virtual monorepo itself.
    Root,
    /// Inside the child repository at this index, at this path relative
    /// to it (`.` for the repository itself).
    Child { index: usize, rel: String },
    /// Outside every child repository.
    Outside,
}

/// The model of a route.
pub enum RouteView {
    Root,
    Child(int, Seq<char>),
    Outside,
}

impl View for Route {
    type V = RouteView;

    open spec fn view(&self) -> RouteView {
        match self {
            Route::Root => RouteView::Root,
            Route::Child { index, rel } => RouteView::Child(*index as int, rel@),
            Route::Outside => RouteView::Outside,
        }
    }
}

/// The index of the first repository named `name`, if any.
pub open spec fn repo_index(repos: Seq<Seq<char>>, name: Seq<char>) -> Option<int>
    decreases repos.len(),
{
    if repos.len() == 0 {
        None
    } else {
        match repo_index(repos.drop_last(), name) {
            Some(k) => Some(k),
            None => if repos.last() == name {
                Some(repos.len() - 1)
            } else {
                None
            },
        }
    }
}

proof fn lemma_repo_index(repos: Seq<Seq<char>>, name: Seq<char>)
    ensures
        repo_index(repos, name) matches Some(k) ==> 0 <= k < repos.len() && repos[k] == name,
    decreases repos.len(),
{
    if repos.len() > 0 {
        lemma_repo_index(repos.drop_last(), name);
    }
}

/// The root as the start of the paths below it: ending in a separator,
/// unless it is empty.
pub open spec fn below_prefix(root: Seq<char>) -> Seq<char> {
    if root.len() == 0 || root.last() == '/' {
        root
    } else {
        root.push('/')
    }
}

/// Where the cleaned absolute path `abs` lies among the repositories named
/// `repos` below `root`: the root itself; else, below the root, the
/// repository its first element names, at the rest of it (or `.`);
/// anything else is outside.
pub open spec fn route_of(root: Seq<char>, repos: Seq<Seq<char>>, abs: Seq<char>) -> RouteView {
    let below = below_prefix(root);
    if abs == root {
        RouteView::Root
    } else if below.is_prefix_of(abs) && abs.len() > below.len() {
        let rest = abs.skip(below.len() as int);
        let (first, rel) = match find_from(rest, '/', 0) {
            Some(k) => (rest.take(k), rest.skip(k + 1)),
            None => (rest, Seq::empty()),
        };
        match repo_index(repos, first) {
            Some(k) => RouteView::Child(k, if rel.len() == 0 { "."@ } else { rel }),
            None => RouteView::Outside,
        }
    } else {
        RouteView::Outside
    }
}

/// The path a given path names: resolved against the working directory,
/// then cleaned.
pub open spec fn resolved(working_dir: Seq<char>, path: Seq<char>) -> Seq<char> {
    clean_path(path_join(working_dir, path))
}

/// The names of the repositories.
pub open spec fn repo_names(repos: Seq<Repo>) -> Seq<Seq<char>> {
    repos.map_values(|r: Repo| r.name@)
}

fn index_of(repos: &Vec<Repo>, name: &Vec<char>) -> (r: Option<usize>)
    ensures
        match r {
            Some(k) => repo_index(repo_names(repos@), name@) == Some(k as int),
            None => repo_index(repo_names(repos@), name@) is None,
        },
{
    let ghost all = repo_names(repos@);
    let mut i: usize = 0;
    while i < repos.len()
        invariant
            i <= repos.len(),
            all == repo_names(repos@),
            repo_index(all.take(i as int), name@) is None,
        decreases repos.len() - i,
    {
        let ghost t = all.take(i + 1);
        assert(t.drop_last() =~= all.take(i as int));
        if same(&chars_of(repos[i].name.as_str()), name) {
            proof {
                assert(t.last() == name@);
                lemma_index_extends(all, name@, i + 1);
            }
            return Some(i);
        }
        i += 1;
    }
    assert(all.take(repos.len() as int) =~= all);
    None
}

proof fn lemma_index_extends(all: Seq<Seq<char>>, name: Seq<char>, n: int)
    requires
        0 < n <= all.len(),
        repo_index(all.take(n), name) is Some,
    ensures
        repo_index(all, name) == repo_index(all.take(n), name),
    decreases all.len() - n,
{
    if n < all.len() {
        let t = all.take(n + 1);
        assert(t.drop_last() =~= all.take(n));
        lemma_index_extends(all, name, n + 1);
    } else {
        assert(all.take(n) =~= all);
    }
}

/// Where `path`, given from `working_dir`, lies among the child
/// repositories below `root`.
pub fn route_path(root: &str, repos: &Vec<Repo>, working_dir: &str, path: &str) -> (r: Route)
    ensures
        r@ == route_of(root@, repo_names(repos@), resolved(working_dir@, path@)),
        r matches Route::Child { index, .. } ==> index < repos@.len(),
{
    let abs = chars_of(cleaned(join_path(working_dir, path).as_str()).as_str());
    let root_chars = chars_of(root);
    if same(&abs, &root_chars) {
        return Route::Root;
    }
    let mut below = chars_of(root);
    if below.len() > 0 && below[below.len() - 1] != '/' {
        below.push('/');
    }
    assert(below@ =~= below_prefix(root@));
    if !(starts_with(&abs, &below) && abs.len() > below.len()) {
        return Route::Outside;
    }
    let rest = slice_of(&abs, below.len(), abs.len());
    assert(rest@ =~= abs@.skip(below@.len() as int));
    let (first, rel) = match find_char(&rest, '/', 0) {
        Some(k) => {
            proof {
                lemma_find_from(rest@, '/', 0);
            }
            let f = slice_of(&rest, 0, k);
            let g = slice_of(&rest, k + 1, rest.len());
            assert(f@ =~= rest@.take(k as int));
            assert(g@ =~= rest@.skip(k + 1));
            (f, g)
        },
        None => (rest, Vec::new()),
    };
    proof {
        lemma_repo_index(repo_names(repos@), first@);
    }
    match index_of(repos, &first) {
        Some(k) => {
            let rel = if rel.len() == 0 {
                lit(".")
            } else {
                rel
            };
            Route::Child { index: k, rel: string_of(&rel) }
        },
        None => Route::Outside,
    }
}

/// The error of a path outside every child repository.
pub open spec fn outside_error(path: Seq<char>) -> Seq<char> {
    "fatal: '"@ + path + "' is not in a child Git repository"@
}

/// The paths routed to repository `k`: those inside it, relative to it,
/// and `.` for each path naming the root, in the order given.
pub open spec fn routed_paths(routes: Seq<RouteView>, k: int) -> Seq<Seq<char>>
    decreases routes.len(),
{
    if routes.len() == 0 {
        Seq::empty()
    } else {
        let rest = routed_paths(routes.drop_last(), k);
        match routes.last() {
            RouteView::Root => rest.push("."@),
            RouteView::Child(i, rel) => if i == k {
                rest.push(rel)
            } else {
                rest
            },
            RouteView::Outside => rest,
        }
    }
}

/// The paths a command is given, routed: for each repository the paths
/// inside it, and whether any path named the root.
pub struct RoutedPaths {
    pub per_repo: Vec<Vec<String>>,
    pub targets_root: bool,
}

/// The routes of the given paths.
pub open spec fn routes_of(root: Seq<char>, repos: Seq<Repo>, working_dir: Seq<char>, paths: Seq<Seq<char>>) -> Seq<
    RouteView,
> {
    paths.map_values(|p: Seq<char>| route_of(root, repo_names(repos), resolved(working_dir, p)))
}

/// Routes the paths a command is given to the child repositories below
/// `root`: an error naming the first path outside every child repository,
/// else each repository's paths and whether any path named the root.
pub fn route_paths(root: &str, repos: &Vec<Repo>, working_dir: &str, paths: &Vec<String>) -> (r:
    Result<RoutedPaths, String>)
    ensures
        ({
            let routes = routes_of(root@, repos@, working_dir@, views(paths@));
            match r {
                Ok(rp) => (forall|i: int| 0 <= i < routes.len() ==> !(#[trigger] routes[i] is Outside))
                    && rp.targets_root == (exists|i: int| 0 <= i < routes.len() && #[trigger] routes[i] is Root)
                    && rp.per_repo@.len() == repos@.len()
                    && forall|k: int| 0 <= k < repos@.len() ==> #[trigger] views(rp.per_repo@[k]@) == routed_paths(routes, k),
                Err(e) => exists|i: int| 0 <= i < routes.len() && #[trigger] routes[i] is Outside
                    && e@ == outside_error(paths@[i]@)
                    && forall|j: int| 0 <= j < i ==> !(#[trigger] routes[j] is Outside),
            }
        }),
{
    let ghost routes = routes_of(root@, repos@, working_dir@, views(paths@));
    let mut per_repo: Vec<Vec<String>> = Vec::new();
    let mut k: usize = 0;
    while k < repos.len()
        invariant
            k <= repos.len(),
            per_repo@.len() == k,
            forall|m: int| 0 <= m < k ==> (#[trigger] per_repo@[m])@.len() == 0,
        decreases repos.len() - k,
    {
        per_repo.push(Vec::new());
        k += 1;
    }
    let mut targets_root = false;
    let mut i: usize = 0;
    while i < paths.len()
        invariant
            i <= paths.len(),
            routes == routes_of(root@, repos@, working_dir@, views(paths@)),
            routes.len() == paths@.len(),
            per_repo@.len() == repos@.len(),
            forall|j: int| 0 <= j < i ==> !(#[trigger] routes[j] is Outside),
            targets_root == (exists|j: int| 0 <= j < i && #[trigger] routes[j] is Root),
            forall|m: int| 0 <= m < repos@.len() ==> #[trigger] views(per_repo@[m]@) == routed_paths(routes.take(i as int), m),
        decreases paths.len() - i,
    {
        let route = route_path(root, repos, working_dir, paths[i].as_str());
        assert(route@ == routes[i as int]);
        let ghost t = routes.take(i + 1);
        assert(t.drop_last() =~= routes.take(i as int));
        assert(t.last() == routes[i as int]);
        match route {
            Route::Outside => {
                let mut e = lit("fatal: '");
                extend(&mut e, &chars_of(paths[i].as_str()));
                extend(&mut e, &lit("' is not in a child Git repository"));
                return Err(string_of(&e));
            },
            Route::Root => {
                targets_root = true;
                assert(t.last() is Root);
                let mut m: usize = 0;
                while m < per_repo.len()
                    invariant
                        m <= per_repo@.len(),
                        per_repo@.len() == repos@.len(),
                        t.drop_last() == routes.take(i as int),
                        t.len() > 0,
                        t.last() is Root,
                        forall|x: int| 0 <= x < m ==> #[trigger] views(per_repo@[x]@) == routed_paths(t, x),
                        forall|x: int| m <= x < repos@.len() ==> #[trigger] views(per_repo@[x]@) == routed_paths(routes.take(i as int), x),
                    decreases per_repo.len() - m,
                {
                    let ghost old_per = per_repo@;
                    let mut v = per_repo.remove(m);
                    let ghost before = views(v@);
                    assert(before == views(old_per[m as int]@));
                    assert(before == routed_paths(routes.take(i as int), m as int));
                    v.push(string_of(&lit(".")));
                    proof {
                        reveal_strlit(".");
                    }
                    assert(views(v@) =~= before.push("."@));
                    assert(views(v@) == routed_paths(t, m as int));
                    per_repo.insert(m, v);
                    assert(per_repo@ =~= old_per.update(m as int, v));
                    m += 1;
                }
            },
            Route::Child { index, rel } => {
                let ghost old_per = per_repo@;
                let mut v = per_repo.remove(index);
                let ghost before = views(v@);
                v.push(rel);
                assert(views(v@) =~= before.push(routes[i as int]->1));
                per_repo.insert(index, v);
                assert(per_repo@ =~= old_per.update(index as int, v));
                assert forall|x: int| 0 <= x < repos@.len() implies #[trigger] views(per_repo@[x]@) == routed_paths(t, x) by {
                    if x != index {
                        assert(per_repo@[x] == old_per[x]);
                    }
                }
            },
        }
        i += 1;
    }
    assert(routes.take(paths.len() as int) =~= routes);
    Ok(RoutedPaths { per_repo, targets_root })
}

/// The whole virtual monorepo as routed paths: `.` in every repository.
pub fn whole_vmr(count: usize) -> (r: RoutedPaths)
    ensures
        r.targets_root,
        r.per_repo@.len() == count,
        forall|k: int| 0 <= k < count ==> #[trigger] views(r.per_repo@[k]@) == seq!["."@],
{
    let mut per_repo: Vec<Vec<String>> = Vec::new();
    let mut k: usize = 0;
    while k < count
        invariant
            k <= count,
            per_repo@.len() == k,
            forall|m: int| 0 <= m < k ==> #[trigger] views(per_repo@[m]@) == seq!["."@],
        decreases count - k,
    {
        let v = vec![string_of(&lit("."))];
        assert(views(v@) =~= seq!["."@]);
        per_repo.push(v);
        k += 1;
    }
    RoutedPaths { per_repo, targets_root: true }
}

/// The repositories that own some of the routed paths, with their paths,
/// among the first `m`, in repository order.
pub open spec fn owners(repos: Seq<Repo>, per_repo: Seq<Seq<Seq<char>>>, m: int) -> Seq<(Seq<char>, Seq<char>, Seq<Seq<char>>)>
    decreases m,
{
    if m <= 0 {
        Seq::empty()
    } else {
        let rest = owners(repos, per_repo, m - 1);
        if per_repo[m - 1].len() > 0 {
            rest.push((repos[m - 1].name@, repos[m - 1].path@, per_repo[m - 1]))
        } else {
            rest
        }
    }
}

/// The owners as they are given back: each repository's name and path,
/// and its paths.
pub open spec fn owned(repos: Seq<Repo>, paths: Seq<Vec<String>>) -> Seq<(Seq<char>, Seq<char>, Seq<Seq<char>>)> {
    Seq::new(repos.len(), |k: int| (repos[k].name@, repos[k].path@, views(paths[k]@)))
}

/// The repositories that own some of the routed paths, with their paths,
/// in repository order; the others run nothing.
pub fn owning(repos: &Vec<Repo>, routed: RoutedPaths) -> (r: (Vec<Repo>, Vec<Vec<String>>))
    requires
        routed.per_repo@.len() == repos@.len(),
    ensures
        r.0@.len() == r.1@.len(),
        owned(r.0@, r.1@) == owners(
            repos@,
            routed.per_repo@.map_values(|v: Vec<String>| views(v@)),
            repos@.len() as int,
        ),
{
    let ghost per = routed.per_repo@.map_values(|v: Vec<String>| views(v@));
    let mut rest = routed.per_repo;
    let mut names: Vec<Repo> = Vec::new();
    let mut paths: Vec<Vec<String>> = Vec::new();
    let mut i: usize = 0;
    while i < repos.len()
        invariant
            i <= repos.len(),
            rest@.len() + i == repos@.len(),
            forall|k: int| 0 <= k < rest@.len() ==> views((#[trigger] rest@[k])@) == per[k + i],
            per.len() == repos@.len(),
            names@.len() == paths@.len(),
            owned(names@, paths@) == owners(repos@, per, i as int),
        decreases repos.len() - i,
    {
        let ghost before_rest = rest@;
        let ps = rest.remove(0);
        assert(views(ps@) == per[i as int]);
        if ps.len() > 0 {
            let ghost before = owned(names@, paths@);
            names.push(Repo { name: string_of(&chars_of(repos[i].name.as_str())), path: string_of(&chars_of(repos[i].path.as_str())) });
            paths.push(ps);
            assert(owned(names@, paths@) =~= before.push((repos@[i as int].name@, repos@[i as int].path@, per[i as int])));
        }
        assert forall|k: int| 0 <= k < rest@.len() implies views((#[trigger] rest@[k])@) == per[k + i + 1] by {
            assert(rest@[k] == before_rest[k + 1]);
        }
        i += 1;
    }
    (names, paths)
}

} // verus!
