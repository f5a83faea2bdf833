//! Character-sequence helpers shared by the parsers and renderers.
//!
//! Text is handled as `Vec<char>` inside the library: every helper here is
//! specified over the `Seq<char>` view, so the parsers and renderers can
//! state their contracts directly over character sequences.

use vstd::prelude::*;

verus! {

/// The characters of a string, in order.
pub fn chars_of(s: &str) -> (v: Vec<char>)
    ensures
        v@ == s@,
{
    let mut v: Vec<char> = Vec::new();
    for c in it: s.chars()
        invariant
            v@ == it.seq().take(it.index() as int),
            it.seq() == s@,
    {
        v.push(c);
    }
    v
}

/// `String::push`: appends one character to a string.
#[verifier::external_body]
fn push_char(s: &mut String, c: char)
    ensures
        final(s)@ == old(s)@.push(c),
{
    s.push(c);
}

/// The string made of the given characters, in order.
pub fn string_of(v: &[char]) -> (s: String)
    ensures
        s@ == v@,
{
    let mut s = String::new();
    let mut i: usize = 0;
    while i < v.len()
        invariant
            i <= v.len(),
            s@ == v@.take(i as int),
        decreases v.len() - i,
    {
        push_char(&mut s, v[i]);
        assert(v@.take(i as int).push(v@[i as int]) =~= v@.take(i + 1));
        i += 1;
    }
    assert(v@.take(v.len() as int) =~= v@);
    s
}

/// The characters of a string literal or other `str`, as a vector.
pub fn lit(s: &str) -> (v: Vec<char>)
    ensures
        v@ == s@,
{
    chars_of(s)
}

/// A copy of a character vector.
pub fn copy_chars(v: &Vec<char>) -> (r: Vec<char>)
    ensures
        r@ == v@,
{
    let mut r: Vec<char> = Vec::new();
    let mut i: usize = 0;
    while i < v.len()
        invariant
            i <= v.len(),
            r@ == v@.take(i as int),
        decreases v.len() - i,
    {
        r.push(v[i]);
        assert(v@.take(i as int).push(v@[i as int]) =~= v@.take(i + 1));
        i += 1;
    }
    assert(v@.take(v.len() as int) =~= v@);
    r
}

/// Appends all of `v` to `out`.
pub fn extend(out: &mut Vec<char>, v: &Vec<char>)
    ensures
        final(out)@ == old(out)@ + v@,
{
    let ghost start = out@;
    let mut i: usize = 0;
    while i < v.len()
        invariant
            i <= v.len(),
            out@ == start + v@.take(i as int),
        decreases v.len() - i,
    {
        out.push(v[i]);
        assert(start + v@.take(i as int).push(v@[i as int]) =~= start + v@.take(i + 1));
        i += 1;
    }
    assert(v@.take(v.len() as int) =~= v@);
}

/// The characters `v[from..to]`.
pub fn slice_of(v: &Vec<char>, from: usize, to: usize) -> (r: Vec<char>)
    requires
        from <= to <= v.len(),
    ensures
        r@ == v@.subrange(from as int, to as int),
{
    let mut r: Vec<char> = Vec::new();
    let mut i: usize = from;
    while i < to
        invariant
            from <= i <= to <= v.len(),
            r@ == v@.subrange(from as int, i as int),
        decreases to - i,
    {
        r.push(v[i]);
        assert(v@.subrange(from as int, i as int).push(v@[i as int]) =~= v@.subrange(
            from as int,
            i + 1,
        ));
        i += 1;
    }
    r
}

/// Whether `p` occurs in `v` starting at index `at`.
pub open spec fn occurs_at(v: Seq<char>, at: int, p: Seq<char>) -> bool {
    0 <= at && at + p.len() <= v.len() && v.subrange(at, at + p.len()) == p
}

/// Whether `p` occurs in `v` starting at index `at`.
pub fn is_at(v: &Vec<char>, at: usize, p: &Vec<char>) -> (r: bool)
    ensures
        r == occurs_at(v@, at as int, p@),
{
    if at > v.len() || p.len() > v.len() - at {
        return false;
    }
    let mut i: usize = 0;
    while i < p.len()
        invariant
            i <= p.len(),
            at + p.len() <= v.len(),
            forall|k: int| 0 <= k < i ==> v@[at + k] == p@[k],
        decreases p.len() - i,
    {
        if v[at + i] != p[i] {
            assert(v@.subrange(at as int, at + p.len())[i as int] != p@[i as int]);
            return false;
        }
        i += 1;
    }
    assert(v@.subrange(at as int, at + p.len()) =~= p@);
    true
}

/// Whether `v` starts with `p`.
pub fn starts_with(v: &Vec<char>, p: &Vec<char>) -> (r: bool)
    ensures
        r == p@.is_prefix_of(v@),
{
    let r = is_at(v, 0, p);
    proof {
        if p@.is_prefix_of(v@) {
            assert(v@.subrange(0, p@.len() as int) =~= p@);
        }
    }
    r
}

/// Whether two character vectors are equal.
pub fn same(a: &Vec<char>, b: &Vec<char>) -> (r: bool)
    ensures
        r == (a@ == b@),
{
    if a.len() != b.len() {
        return false;
    }
    let r = is_at(a, 0, b);
    proof {
        if r {
            assert(a@.subrange(0, b@.len() as int) =~= a@);
        }
        if a@ == b@ {
            assert(a@.subrange(0, b@.len() as int) =~= a@);
        }
    }
    r
}

/// Whether `c` occurs in `v`.
pub fn has_char(v: &Vec<char>, c: char) -> (r: bool)
    ensures
        r == v@.contains(c),
{
    let mut i: usize = 0;
    while i < v.len()
        invariant
            i <= v.len(),
            forall|k: int| 0 <= k < i ==> v@[k] != c,
        decreases v.len() - i,
    {
        if v[i] == c {
            assert(v@[i as int] == c);
            return true;
        }
        i += 1;
    }
    false
}

/// Unicode `White_Space`, the set `char::is_whitespace` and `str::trim`
/// use.
pub open spec fn is_white_space(c: char) -> bool {
    ||| ('\t' <= c && c <= '\r')
    ||| c == ' '
    ||| c == '\u{85}'
    ||| c == '\u{a0}'
    ||| c == '\u{1680}'
    ||| ('\u{2000}' <= c && c <= '\u{200a}')
    ||| c == '\u{2028}'
    ||| c == '\u{2029}'
    ||| c == '\u{202f}'
    ||| c == '\u{205f}'
    ||| c == '\u{3000}'
}

/// Whether `c` is Unicode white space.
pub fn white_space(c: char) -> (r: bool)
    ensures
        r == is_white_space(c),
{
    ('\t' <= c && c <= '\r') || c == ' ' || c == '\u{85}' || c == '\u{a0}' || c == '\u{1680}'
        || ('\u{2000}' <= c && c <= '\u{200a}') || c == '\u{2028}' || c == '\u{2029}' || c
        == '\u{202f}' || c == '\u{205f}' || c == '\u{3000}'
}

/// `s` without its leading white space.
pub open spec fn trim_start(s: Seq<char>) -> Seq<char>
    decreases s.len(),
{
    if s.len() > 0 && is_white_space(s[0]) {
        trim_start(s.drop_first())
    } else {
        s
    }
}

/// `s` without its trailing white space.
pub open spec fn trim_end(s: Seq<char>) -> Seq<char>
    decreases s.len(),
{
    if s.len() > 0 && is_white_space(s.last()) {
        trim_end(s.drop_last())
    } else {
        s
    }
}

/// `str::trim`: `s` without leading and trailing white space.
pub open spec fn trim(s: Seq<char>) -> Seq<char> {
    trim_end(trim_start(s))
}

proof fn lemma_trim_start_skip(s: Seq<char>, i: int)
    requires
        0 <= i <= s.len(),
        forall|k: int| 0 <= k < i ==> is_white_space(s[k]),
    ensures
        trim_start(s) == trim_start(s.skip(i)),
    decreases i,
{
    if i > 0 {
        assert(s.drop_first().skip(i - 1) =~= s.skip(i));
        lemma_trim_start_skip(s.drop_first(), i - 1);
    } else {
        assert(s.skip(0) =~= s);
    }
}

proof fn lemma_trim_end_take(s: Seq<char>, j: int)
    requires
        0 <= j <= s.len(),
        forall|k: int| j <= k < s.len() ==> is_white_space(s[k]),
    ensures
        trim_end(s) == trim_end(s.take(j)),
    decreases s.len() - j,
{
    if j < s.len() {
        assert(s.drop_last().take(j) =~= s.take(j));
        lemma_trim_end_take(s.drop_last(), j);
    } else {
        assert(s.take(j) =~= s);
    }
}

/// `str::trim` on a character vector.
pub fn trimmed(v: &Vec<char>) -> (r: Vec<char>)
    ensures
        r@ == trim(v@),
{
    let mut i: usize = 0;
    while i < v.len() && white_space(v[i])
        invariant
            i <= v.len(),
            forall|k: int| 0 <= k < i ==> is_white_space(v@[k]),
        decreases v.len() - i,
    {
        i += 1;
    }
    proof {
        lemma_trim_start_skip(v@, i as int);
    }
    let ghost rest = v@.skip(i as int);
    let mut j: usize = v.len();
    while j > i && white_space(v[j - 1])
        invariant
            i <= j <= v.len(),
            forall|k: int| j <= k < v.len() ==> is_white_space(v@[k]),
        decreases j,
    {
        j -= 1;
    }
    proof {
        assert(trim_start(rest) == rest) by {
            if rest.len() > 0 {
                assert(rest[0] == v@[i as int]);
            }
        }
        assert forall|k: int| j - i <= k < rest.len() implies is_white_space(rest[k]) by {
            assert(rest[k] == v@[i + k]);
        }
        lemma_trim_end_take(rest, j - i);
        let t = rest.take(j - i);
        if t.len() > 0 {
            assert(t.last() == v@[j - 1]);
        }
        assert(trim_end(t) == t);
        assert(t =~= v@.subrange(i as int, j as int));
    }
    slice_of(v, i, j)
}

/// Index of the first `c` in `s` at or after `from`, if any.
pub open spec fn find_from(s: Seq<char>, c: char, from: int) -> Option<int>
    decreases s.len() - from,
{
    if from < 0 || from >= s.len() {
        None
    } else if s[from] == c {
        Some(from)
    } else {
        find_from(s, c, from + 1)
    }
}

pub proof fn lemma_find_from(s: Seq<char>, c: char, from: int)
    requires
        0 <= from,
    ensures
        find_from(s, c, from) matches Some(k) ==> from <= k < s.len() && s[k] == c && forall|
            j: int,
        |
            from <= j < k ==> s[j] != c,
        find_from(s, c, from) is None ==> forall|j: int| from <= j < s.len() ==> s[j] != c,
    decreases s.len() - from,
{
    if from < s.len() && s[from] != c {
        lemma_find_from(s, c, from + 1);
    }
}

/// Index of the first `c` in `v` at or after `from`, if any.
pub fn find_char(v: &Vec<char>, c: char, from: usize) -> (r: Option<usize>)
    ensures
        r matches Some(k) ==> find_from(v@, c, from as int) == Some(k as int),
        r is None ==> find_from(v@, c, from as int) is None,
{
    let mut i: usize = from;
    while i < v.len()
        invariant
            from <= i,
            find_from(v@, c, from as int) == find_from(v@, c, i as int),
        decreases v.len() - i,
    {
        if v[i] == c {
            return Some(i);
        }
        i += 1;
    }
    None
}

/// `str::lines`: the lines of `s`, split at `\n`, each without its `\n`
/// and without a `\r` that stood right before it; a final `\n` ends the
/// last line rather than starting an empty one.
pub open spec fn lines(s: Seq<char>) -> Seq<Seq<char>>
    decreases s.len(),
{
    if s.len() == 0 {
        Seq::empty()
    } else {
        match find_from(s, '\n', 0) {
            Some(e) => {
                proof {
                    lemma_find_from(s, '\n', 0);
                }
                let line = s.take(e);
                let line = if line.len() > 0 && line.last() == '\r' {
                    line.drop_last()
                } else {
                    line
                };
                if e + 1 <= s.len() {
                    seq![line] + lines(s.skip(e + 1))
                } else {
                    seq![line]
                }
            },
            None => seq![s],
        }
    }
}

/// The lines of a string, as `str::lines` splits them.
pub fn lines_of(v: &Vec<char>) -> (r: Vec<Vec<char>>)
    ensures
        r@.len() == lines(v@).len(),
        forall|i: int| 0 <= i < r@.len() ==> #[trigger] r@[i]@ == lines(v@)[i],
{
    let mut r: Vec<Vec<char>> = Vec::new();
    let mut pos: usize = 0;
    assert(v@.skip(0) =~= v@);
    assert(lines(v@).skip(0) =~= lines(v@));
    while pos < v.len()
        invariant
            pos <= v.len(),
            forall|i: int| 0 <= i < r@.len() ==> #[trigger] r@[i]@ == (lines(v@).take(
                r@.len() as int,
            ))[i],
            r@.len() + lines(v@.skip(pos as int)).len() == lines(v@).len(),
            lines(v@).skip(r@.len() as int) == lines(v@.skip(pos as int)),
        decreases v.len() - pos,
    {
        let ghost rest = v@.skip(pos as int);
        let ghost before = r@;
        let found = find_char(v, '\n', pos);
        proof {
            lemma_find_from(v@, '\n', pos as int);
            lemma_find_from(rest, '\n', 0);
        }
        match found {
            Some(e) => {
                proof {
                    assert forall|j: int| 0 <= j < e - pos implies rest[j] != '\n' by {
                        assert(rest[j] == v@[pos + j]);
                    }
                    assert(rest[e - pos] == '\n');
                    assert(find_from(rest, '\n', 0) == Some(e - pos)) by {
                        lemma_find_from(rest, '\n', 0);
                        match find_from(rest, '\n', 0) {
                            Some(k) => {
                                if k < e - pos {
                                    assert(rest[k] != '\n');
                                }
                                if k > e - pos {
                                }
                            },
                            None => {},
                        }
                    }
                }
                let mut line = slice_of(v, pos, e);
                if line.len() > 0 && line[line.len() - 1] == '\r' {
                    line.pop();
                }
                proof {
                    assert(rest.take(e - pos) =~= v@.subrange(pos as int, e as int));
                    assert(rest.skip(e - pos + 1) =~= v@.skip(e + 1));
                    assert(lines(rest) == seq![line@] + lines(v@.skip(e + 1)));
                }
                r.push(line);
                pos = e + 1;
                proof {
                    let l = lines(v@);
                    let n = before.len() as int;
                    assert(l.skip(n) == seq![line@] + lines(v@.skip(pos as int)));
                    assert(l[n] == l.skip(n)[0]);
                    assert(l.skip(n + 1) =~= l.skip(n).drop_first());
                    assert(l.skip(n).drop_first() =~= lines(v@.skip(pos as int)));
                    assert forall|i: int| 0 <= i < r@.len() implies #[trigger] r@[i]@ == (
                    l.take(r@.len() as int))[i] by {
                        if i < n {
                            assert(r@[i] == before[i]);
                            assert(before[i]@ == l.take(n)[i]);
                        }
                    }
                }
            },
            None => {
                proof {
                    assert forall|j: int| 0 <= j < rest.len() implies rest[j] != '\n' by {
                        assert(rest[j] == v@[pos + j]);
                    }
                    assert(find_from(rest, '\n', 0) is None) by {
                        match find_from(rest, '\n', 0) {
                            Some(k) => {
                                assert(rest[k] == '\n');
                            },
                            None => {},
                        }
                    }
                    assert(lines(rest) == seq![rest]);
                }
                let line = slice_of(v, pos, v.len());
                proof {
                    assert(line@ =~= rest);
                }
                r.push(line);
                pos = v.len();
                proof {
                    let l = lines(v@);
                    let n = before.len() as int;
                    assert(v@.skip(pos as int) =~= Seq::<char>::empty());
                    assert(l.skip(n) == seq![rest]);
                    assert(l[n] == l.skip(n)[0]);
                    assert forall|i: int| 0 <= i < r@.len() implies #[trigger] r@[i]@ == (
                    l.take(r@.len() as int))[i] by {
                        if i < n {
                            assert(r@[i] == before[i]);
                            assert(before[i]@ == l.take(n)[i]);
                        }
                    }
                    assert(l.skip(n + 1) =~= Seq::<Seq<char>>::empty());
                }
            },
        }
    }
    proof {
        assert(v@.skip(pos as int) =~= Seq::<char>::empty());
        assert(lines(v@).take(r@.len() as int) =~= lines(v@));
    }
    r
}

/// `a` comes strictly before `b` in the order `String` uses: byte order of
/// UTF-8, which is the order of code points, compared lexicographically.
pub open spec fn lex_lt(a: Seq<char>, b: Seq<char>) -> bool
    decreases a.len(),
{
    if a.len() == 0 {
        b.len() > 0
    } else if b.len() == 0 {
        false
    } else if a[0] != b[0] {
        a[0] < b[0]
    } else {
        lex_lt(a.drop_first(), b.drop_first())
    }
}

/// Whether `a` comes strictly before `b` as strings.
pub fn less_than(a: &Vec<char>, b: &Vec<char>) -> (r: bool)
    ensures
        r == lex_lt(a@, b@),
{
    let mut i: usize = 0;
    assert(a@.skip(0) =~= a@);
    assert(b@.skip(0) =~= b@);
    while i < a.len() && i < b.len() && a[i] == b[i]
        invariant
            i <= a.len(),
            i <= b.len(),
            lex_lt(a@, b@) == lex_lt(a@.skip(i as int), b@.skip(i as int)),
        decreases a.len() - i,
    {
        proof {
            let sa = a@.skip(i as int);
            let sb = b@.skip(i as int);
            assert(sa.drop_first() =~= a@.skip(i + 1));
            assert(sb.drop_first() =~= b@.skip(i + 1));
            assert(sa[0] == a@[i as int]);
            assert(sb[0] == b@[i as int]);
        }
        i += 1;
    }
    let ghost sa = a@.skip(i as int);
    let ghost sb = b@.skip(i as int);
    if i == a.len() {
        i < b.len()
    } else if i == b.len() {
        false
    } else {
        proof {
            assert(sa[0] == a@[i as int]);
            assert(sb[0] == b@[i as int]);
        }
        a[i] < b[i]
    }
}

pub proof fn lemma_lex_irreflexive(a: Seq<char>)
    ensures
        !lex_lt(a, a),
    decreases a.len(),
{
    if a.len() > 0 {
        lemma_lex_irreflexive(a.drop_first());
    }
}

pub proof fn lemma_lex_total(a: Seq<char>, b: Seq<char>)
    ensures
        a != b ==> (lex_lt(a, b) || lex_lt(b, a)),
        !(lex_lt(a, b) && lex_lt(b, a)),
    decreases a.len(),
{
    if a.len() > 0 && b.len() > 0 {
        lemma_lex_total(a.drop_first(), b.drop_first());
        if a[0] == b[0] && a != b {
            assert(a.drop_first() != b.drop_first()) by {
                if a.drop_first() == b.drop_first() {
                    assert(a =~= seq![a[0]] + a.drop_first());
                    assert(b =~= seq![b[0]] + b.drop_first());
                }
            }
        }
    } else if a.len() == 0 && b.len() == 0 {
        assert(a =~= b);
    }
}

pub proof fn lemma_lex_transitive(a: Seq<char>, b: Seq<char>, c: Seq<char>)
    requires
        lex_lt(a, b),
        lex_lt(b, c),
    ensures
        lex_lt(a, c),
    decreases a.len(),
{
    if a.len() > 0 && b.len() > 0 && c.len() > 0 {
        if a[0] == b[0] && b[0] == c[0] {
            lemma_lex_transitive(a.drop_first(), b.drop_first(), c.drop_first());
        }
    }
}

/// Index of the first occurrence of `p` in `s` at or after `from`, if any.
pub open spec fn find_seq(s: Seq<char>, p: Seq<char>, from: int) -> Option<int>
    decreases s.len() + 1 - from,
{
    if from < 0 || from + p.len() > s.len() {
        None
    } else if occurs_at(s, from, p) {
        Some(from)
    } else {
        find_seq(s, p, from + 1)
    }
}

pub proof fn lemma_find_seq(s: Seq<char>, p: Seq<char>, from: int)
    requires
        0 <= from,
    ensures
        find_seq(s, p, from) matches Some(k) ==> from <= k && k + p.len() <= s.len() && occurs_at(
            s,
            k,
            p,
        ),
    decreases s.len() + 1 - from,
{
    if from + p.len() <= s.len() && !occurs_at(s, from, p) {
        lemma_find_seq(s, p, from + 1);
    }
}

/// Index of the first occurrence of `p` in `v` at or after `from`, if any.
pub fn find_seq_of(v: &Vec<char>, p: &Vec<char>, from: usize) -> (r: Option<usize>)
    ensures
        r matches Some(k) ==> find_seq(v@, p@, from as int) == Some(k as int),
        r is None ==> find_seq(v@, p@, from as int) is None,
{
    if p.len() > v.len() {
        return None;
    }
    let mut i: usize = from;
    while i <= v.len() - p.len()
        invariant
            from <= i,
            p.len() <= v.len(),
            find_seq(v@, p@, from as int) == find_seq(v@, p@, i as int),
        decreases v.len() + 1 - i,
    {
        if is_at(v, i, p) {
            return Some(i);
        }
        if i >= v.len() {
            assert(find_seq(v@, p@, i + 1) is None);
            return None;
        }
        i += 1;
    }
    None
}

} // verus!
