//! Ordered grouping: the sorted, duplicate-free sequence of a collection of
//! names, and the members filed under one key. Together they give the
//! `BTreeMap`/`BTreeSet` orders the renderers list things in.

use crate::text::{
    copy_chars, lemma_lex_irreflexive, lemma_lex_total, lemma_lex_transitive, less_than, lex_lt,
    same,
};
use vstd::prelude::*;

verus! {

/// Every name comes strictly before the next: sorted, without duplicates.
pub open spec fn strictly_sorted(s: Seq<Seq<char>>) -> bool {
    forall|i: int, j: int| 0 <= i < j < s.len() ==> lex_lt(#[trigger] s[i], #[trigger] s[j])
}

/// The names of `s`, sorted, each once.
pub open spec fn sorted_set(s: Seq<Seq<char>>) -> Seq<Seq<char>> {
    choose|r: Seq<Seq<char>>| strictly_sorted(r) && r.to_set() == s.to_set()
}

proof fn lemma_sorted_first_is_least(s: Seq<Seq<char>>, x: Seq<char>)
    requires
        strictly_sorted(s),
        s.contains(x),
        s.len() > 0,
    ensures
        s[0] == x || lex_lt(s[0], x),
{
    let k = choose|k: int| 0 <= k < s.len() && s[k] == x;
    if k > 0 {
        assert(lex_lt(s[0], s[k]));
    }
}

/// Two sorted, duplicate-free sequences with the same names are equal.
pub proof fn lemma_sorted_unique(a: Seq<Seq<char>>, b: Seq<Seq<char>>)
    requires
        strictly_sorted(a),
        strictly_sorted(b),
        a.to_set() == b.to_set(),
    ensures
        a == b,
    decreases a.len(),
{
    if a.len() == 0 {
        if b.len() > 0 {
            assert(b.to_set().contains(b[0]));
            assert(a.to_set().contains(b[0]));
        }
        assert(a =~= b);
    } else {
        assert(a.to_set().contains(a[0]));
        assert(b.to_set().contains(a[0]));
        assert(b.len() > 0);
        assert(b.to_set().contains(b[0]));
        assert(a.to_set().contains(b[0]));
        lemma_sorted_first_is_least(a, b[0]);
        lemma_sorted_first_is_least(b, a[0]);
        lemma_lex_total(a[0], b[0]);
        assert(a[0] == b[0]);
        let a1 = a.drop_first();
        let b1 = b.drop_first();
        assert forall|x: Seq<char>| a1.to_set().contains(x) == b1.to_set().contains(x) by {
            if a1.to_set().contains(x) {
                let k = choose|k: int| 0 <= k < a1.len() && a1[k] == x;
                assert(a[k + 1] == x);
                assert(lex_lt(a[0], a[k + 1]));
                lemma_lex_irreflexive(x);
                assert(a.to_set().contains(x));
                assert(b.to_set().contains(x));
                let m = choose|m: int| 0 <= m < b.len() && b[m] == x;
                assert(m != 0);
                assert(b1[m - 1] == x);
            }
            if b1.to_set().contains(x) {
                let k = choose|k: int| 0 <= k < b1.len() && b1[k] == x;
                assert(b[k + 1] == x);
                assert(lex_lt(b[0], b[k + 1]));
                lemma_lex_irreflexive(x);
                assert(b.to_set().contains(x));
                assert(a.to_set().contains(x));
                let m = choose|m: int| 0 <= m < a.len() && a[m] == x;
                assert(m != 0);
                assert(a1[m - 1] == x);
            }
        }
        assert(a1.to_set() =~= b1.to_set());
        assert forall|i: int, j: int| 0 <= i < j < a1.len() implies lex_lt(
            #[trigger] a1[i],
            #[trigger] a1[j],
        ) by {
            assert(lex_lt(a[i + 1], a[j + 1]));
        }
        assert forall|i: int, j: int| 0 <= i < j < b1.len() implies lex_lt(
            #[trigger] b1[i],
            #[trigger] b1[j],
        ) by {
            assert(lex_lt(b[i + 1], b[j + 1]));
        }
        lemma_sorted_unique(a1, b1);
        assert(a =~= seq![a[0]] + a1);
        assert(b =~= seq![b[0]] + b1);
    }
}

/// A strictly sorted sequence is the sorted set of its own names.
pub proof fn lemma_sorted_set_of(r: Seq<Seq<char>>, s: Seq<Seq<char>>)
    requires
        strictly_sorted(r),
        r.to_set() == s.to_set(),
    ensures
        sorted_set(s) == r,
{
    let c = sorted_set(s);
    assert(strictly_sorted(c) && c.to_set() == s.to_set());
    lemma_sorted_unique(c, r);
}

/// The views of a vector of names.
pub open spec fn names(v: Seq<Vec<char>>) -> Seq<Seq<char>> {
    v.map_values(|x: Vec<char>| x@)
}

/// The names of `v`, sorted, each once.
pub fn sorted_distinct(v: &Vec<Vec<char>>) -> (r: Vec<Vec<char>>)
    ensures
        names(r@) == sorted_set(names(v@)),
{
    let mut r: Vec<Vec<char>> = Vec::new();
    let mut i: usize = 0;
    while i < v.len()
        invariant
            i <= v.len(),
            strictly_sorted(names(r@)),
            names(r@).to_set() == names(v@).take(i as int).to_set(),
        decreases v.len() - i,
    {
        let x = &v[i];
        let ghost before = names(r@);
        // The first position whose name is not before x.
        let mut j: usize = 0;
        while j < r.len() && less_than(&r[j], x)
            invariant
                j <= r.len(),
                before == names(r@),
                forall|k: int| 0 <= k < j ==> lex_lt(before[k], x@),
            decreases r.len() - j,
        {
            j += 1;
        }
        let present = j < r.len() && same(&r[j], x);
        if !present {
            proof {
                if j < r.len() {
                    lemma_lex_total(r@[j as int]@, x@);
                    assert(lex_lt(x@, before[j as int]));
                }
            }
            r.insert(j, copy_chars(x));
            proof {
                let after = names(r@);
                assert(after =~= before.take(j as int).push(x@) + before.skip(j as int));
                assert forall|a: int, b: int| 0 <= a < b < after.len() implies lex_lt(
                    #[trigger] after[a],
                    #[trigger] after[b],
                ) by {
                    if a < j && b == j {
                        assert(after[a] == before[a]);
                    } else if a < j && b > j {
                        assert(after[a] == before[a]);
                        assert(after[b] == before[b - 1]);
                        if b - 1 > a {
                            assert(lex_lt(before[a], before[b - 1]));
                        } else {
                        }
                    } else if a == j && b > j {
                        assert(after[b] == before[b - 1]);
                        if b - 1 > j {
                            assert(lex_lt(before[j as int], before[b - 1]));
                            lemma_lex_transitive(x@, before[j as int], before[b - 1]);
                        }
                    } else if a > j {
                        assert(after[a] == before[a - 1]);
                        assert(after[b] == before[b - 1]);
                    } else {
                        assert(after[a] == before[a]);
                        assert(after[b] == before[b]);
                    }
                }
                assert(after.to_set() =~= before.to_set().insert(x@)) by {
                    assert forall|y: Seq<char>| after.to_set().contains(y) implies before.to_set().insert(x@).contains(y) by {
                        let k = choose|k: int| 0 <= k < after.len() && after[k] == y;
                        if k < j {
                            assert(before[k] == y);
                        } else if k > j {
                            assert(before[k - 1] == y);
                        }
                    }
                    assert forall|y: Seq<char>| before.to_set().insert(x@).contains(y) implies after.to_set().contains(y) by {
                        if y == x@ {
                            assert(after[j as int] == y);
                        } else {
                            let k = choose|k: int| 0 <= k < before.len() && before[k] == y;
                            if k < j {
                                assert(after[k] == y);
                            } else {
                                assert(after[k + 1] == y);
                            }
                        }
                    }
                }
            }
        } else {
            proof {
                assert(before[j as int] == x@);
                assert(before.to_set().contains(x@));
                assert(before.to_set().insert(x@) =~= before.to_set());
            }
        }
        proof {
            let vv = names(v@);
            assert(vv.take(i + 1) =~= vv.take(i as int).push(x@));
            vv.take(i as int).lemma_push_to_set_commute(x@);
        }
        i += 1;
    }
    proof {
        assert(names(v@).take(v.len() as int) =~= names(v@));
        lemma_sorted_set_of(names(r@), names(v@));
    }
    r
}

/// The members filed under `key`, in the order they were filed.
pub open spec fn members(pairs: Seq<(Seq<char>, Seq<char>)>, key: Seq<char>) -> Seq<Seq<char>>
    decreases pairs.len(),
{
    if pairs.len() == 0 {
        Seq::empty()
    } else if pairs.last().0 == key {
        members(pairs.drop_last(), key).push(pairs.last().1)
    } else {
        members(pairs.drop_last(), key)
    }
}

/// The views of a vector of key-member pairs.
pub open spec fn pair_views(v: Seq<(Vec<char>, Vec<char>)>) -> Seq<(Seq<char>, Seq<char>)> {
    v.map_values(|p: (Vec<char>, Vec<char>)| (p.0@, p.1@))
}

/// The members filed under `key`, in filing order.
pub fn members_of(pairs: &Vec<(Vec<char>, Vec<char>)>, key: &Vec<char>) -> (r: Vec<Vec<char>>)
    ensures
        names(r@) == members(pair_views(pairs@), key@),
{
    let mut r: Vec<Vec<char>> = Vec::new();
    let mut i: usize = 0;
    while i < pairs.len()
        invariant
            i <= pairs.len(),
            names(r@) == members(pair_views(pairs@).take(i as int), key@),
        decreases pairs.len() - i,
    {
        proof {
            let t = pair_views(pairs@).take(i + 1);
            assert(t.drop_last() =~= pair_views(pairs@).take(i as int));
            assert(t.last() == (pairs@[i as int].0@, pairs@[i as int].1@));
        }
        if same(&pairs[i].0, key) {
            r.push(copy_chars(&pairs[i].1));
            assert(names(r@) =~= members(pair_views(pairs@).take(i as int), key@).push(
                pairs@[i as int].1@,
            ));
        }
        i += 1;
    }
    assert(pair_views(pairs@).take(pairs.len() as int) =~= pair_views(pairs@));
    r
}

/// The keys of the pairs, in filing order.
pub open spec fn keys(pairs: Seq<(Seq<char>, Seq<char>)>) -> Seq<Seq<char>> {
    pairs.map_values(|p: (Seq<char>, Seq<char>)| p.0)
}

/// The keys of the pairs, in filing order.
pub fn keys_of(pairs: &Vec<(Vec<char>, Vec<char>)>) -> (r: Vec<Vec<char>>)
    ensures
        names(r@) == keys(pair_views(pairs@)),
{
    let mut r: Vec<Vec<char>> = Vec::new();
    let mut i: usize = 0;
    while i < pairs.len()
        invariant
            i <= pairs.len(),
            names(r@) == keys(pair_views(pairs@)).take(i as int),
        decreases pairs.len() - i,
    {
        let ghost before = names(r@);
        r.push(copy_chars(&pairs[i].0));
        assert(names(r@) =~= before.push(pairs@[i as int].0@));
        assert(keys(pair_views(pairs@))[i as int] == pairs@[i as int].0@);
        assert(names(r@) =~= keys(pair_views(pairs@)).take(i + 1));
        i += 1;
    }
    assert(keys(pair_views(pairs@)).take(pairs.len() as int) =~= keys(pair_views(pairs@)));
    r
}

/// The index of the first name of `sorted`, from `j` on, that comes after
/// `key`; the length when there is none.
pub open spec fn name_after(sorted: Seq<Seq<char>>, key: Seq<char>, j: int) -> int
    decreases sorted.len() - j,
{
    if j < 0 || j >= sorted.len() {
        sorted.len() as int
    } else if lex_lt(key, sorted[j]) {
        j
    } else {
        name_after(sorted, key, j + 1)
    }
}

/// The names sorted, duplicates kept: each name goes after every earlier
/// one that does not come after it.
pub open spec fn sorted_names(s: Seq<Seq<char>>) -> Seq<Seq<char>>
    decreases s.len(),
{
    if s.len() == 0 {
        Seq::empty()
    } else {
        let sorted = sorted_names(s.drop_last());
        sorted.insert(name_after(sorted, s.last(), 0), s.last())
    }
}

proof fn lemma_name_after(sorted: Seq<Seq<char>>, key: Seq<char>, j: int)
    requires
        0 <= j <= sorted.len(),
    ensures
        j <= name_after(sorted, key, j) <= sorted.len(),
    decreases sorted.len() - j,
{
    if j < sorted.len() && !lex_lt(key, sorted[j]) {
        lemma_name_after(sorted, key, j + 1);
    }
}

/// The names sorted, duplicates kept.
pub fn sort_names(v: &Vec<Vec<char>>) -> (r: Vec<Vec<char>>)
    ensures
        names(r@) == sorted_names(names(v@)),
{
    let mut r: Vec<Vec<char>> = Vec::new();
    let mut i: usize = 0;
    while i < v.len()
        invariant
            i <= v.len(),
            names(r@) == sorted_names(names(v@).take(i as int)),
        decreases v.len() - i,
    {
        let key = &v[i];
        let ghost sorted = names(r@);
        let mut j: usize = 0;
        while j < r.len() && !less_than(key, &r[j])
            invariant
                j <= r.len(),
                sorted == names(r@),
                name_after(sorted, key@, 0) == name_after(sorted, key@, j as int),
            decreases r.len() - j,
        {
            j += 1;
        }
        r.insert(j, copy_chars(key));
        proof {
            let t = names(v@).take(i + 1);
            assert(t.drop_last() =~= names(v@).take(i as int));
            assert(t.last() == v@[i as int]@);
            assert(name_after(sorted, key@, j as int) == j as int);
            assert(names(r@) =~= sorted.insert(j as int, t.last()));
        }
        i += 1;
    }
    assert(names(v@).take(v.len() as int) =~= names(v@));
    r
}

/// The index of the first entry of `sorted`, from `j` on, whose name comes
/// after `key`; the length when there is none.
pub open spec fn entry_after<T>(sorted: Seq<(String, T)>, key: Seq<char>, j: int) -> int
    decreases sorted.len() - j,
{
    if j < 0 || j >= sorted.len() {
        sorted.len() as int
    } else if lex_lt(key, sorted[j].0@) {
        j
    } else {
        entry_after(sorted, key, j + 1)
    }
}

pub proof fn lemma_entry_after<T>(sorted: Seq<(String, T)>, key: Seq<char>, j: int)
    requires
        0 <= j <= sorted.len(),
    ensures
        j <= entry_after(sorted, key, j) <= sorted.len(),
    decreases sorted.len() - j,
{
    if j < sorted.len() && !lex_lt(key, sorted[j].0@) {
        lemma_entry_after(sorted, key, j + 1);
    }
}

/// Named entries sorted by name, equal names in their first order: each
/// entry goes after every earlier one whose name does not come after its
/// own.
pub open spec fn by_name<T>(s: Seq<(String, T)>) -> Seq<(String, T)>
    decreases s.len(),
{
    if s.len() == 0 {
        Seq::empty()
    } else {
        let sorted = by_name(s.drop_last());
        sorted.insert(entry_after(sorted, s.last().0@, 0), s.last())
    }
}

/// Named entries sorted by name, equal names in their first order.
pub fn sort_by_name<T>(v: Vec<(String, T)>) -> (r: Vec<(String, T)>)
    ensures
        r@ == by_name(v@),
{
    let ghost all = v@;
    let n: usize = v.len();
    assert(all.len() == n);
    let mut rest = v;
    let mut r: Vec<(String, T)> = Vec::new();
    let mut i: usize = 0;
    while rest.len() > 0
        invariant
            i + rest.len() == all.len(),
            all.len() == n,
            rest@ == all.skip(i as int),
            r@ == by_name(all.take(i as int)),
        decreases rest.len(),
    {
        let e = rest.remove(0);
        let ghost sorted = r@;
        let key = crate::text::chars_of(e.0.as_str());
        let mut j: usize = 0;
        while j < r.len() && !less_than(&key, &crate::text::chars_of(r[j].0.as_str()))
            invariant
                j <= r.len(),
                sorted == r@,
                key@ == e.0@,
                entry_after(sorted, e.0@, 0) == entry_after(sorted, e.0@, j as int),
            decreases r.len() - j,
        {
            j += 1;
        }
        proof {
            lemma_entry_after(sorted, e.0@, j as int);
            let t = all.take(i + 1);
            assert(t.drop_last() =~= all.take(i as int));
            assert(t.last() == e);
            assert(entry_after(sorted, e.0@, j as int) == j as int);
        }
        r.insert(j, e);
        proof {
            let t = all.take(i + 1);
            assert(r@ =~= sorted.insert(j as int, t.last()));
            assert(rest@ =~= all.skip(i + 1));
        }
        i += 1;
    }
    assert(all.take(i as int) =~= all);
    r
}

proof fn lemma_entry_after_bounds<T>(sorted: Seq<(String, T)>, key: Seq<char>, j: int)
    requires
        0 <= j <= sorted.len(),
    ensures
        forall|k: int| j <= k < entry_after(sorted, key, j) ==> !lex_lt(key, (#[trigger] sorted[k]).0@),
        entry_after(sorted, key, j) < sorted.len() ==> lex_lt(key, sorted[entry_after(sorted, key, j)].0@),
    decreases sorted.len() - j,
{
    if j < sorted.len() && !lex_lt(key, sorted[j].0@) {
        lemma_entry_after_bounds(sorted, key, j + 1);
    }
}

/// Whether named entries are in name order.
pub open spec fn name_ordered<T>(s: Seq<(String, T)>) -> bool {
    forall|i: int, j: int| 0 <= i < j < s.len() ==> !lex_lt((#[trigger] s[j]).0@, (#[trigger] s[i]).0@)
}

/// Entries sorted by name are the entries, each exactly once, rearranged
/// into name order.
pub proof fn sorting_by_name_orders_and_keeps_entries<T>(s: Seq<(String, T)>)
    ensures
        by_name(s).to_multiset() == s.to_multiset(),
        name_ordered(by_name(s)),
    decreases s.len(),
{
    if s.len() == 0 {
        assert(by_name(s) =~= s);
        return;
    }
    let prev = s.drop_last();
    sorting_by_name_orders_and_keeps_entries(prev);
    let sorted = by_name(prev);
    let x = s.last();
    let key = x.0@;
    let j = entry_after(sorted, key, 0);
    lemma_entry_after(sorted, key, 0);
    lemma_entry_after_bounds(sorted, key, 0);
    let r = sorted.insert(j, x);
    assert(by_name(s) == r);
    vstd::seq_lib::to_multiset_insert(sorted, j, x);
    vstd::seq_lib::to_multiset_build(prev, x);
    assert(s =~= prev.push(x));
    assert forall|a: int, b: int| 0 <= a < b < r.len() implies !lex_lt((#[trigger] r[b]).0@, (#[trigger] r[a]).0@) by {
        if b < j {
            assert(r[a] == sorted[a] && r[b] == sorted[b]);
        } else if b == j {
            assert(r[a] == sorted[a] && r[b] == x);
        } else if a < j {
            assert(r[a] == sorted[a] && r[b] == sorted[b - 1]);
        } else if a == j {
            assert(r[a] == x && r[b] == sorted[b - 1]);
            assert(lex_lt(key, sorted[j].0@));
            if lex_lt(sorted[b - 1].0@, key) {
                lemma_lex_transitive(sorted[b - 1].0@, key, sorted[j].0@);
                if b - 1 == j {
                    lemma_lex_irreflexive(sorted[j].0@);
                } else {
                    assert(!lex_lt(sorted[b - 1].0@, sorted[j].0@));
                }
            }
        } else {
            assert(r[a] == sorted[a - 1] && r[b] == sorted[b - 1]);
        }
    }
}

} // verus!
