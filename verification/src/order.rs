use vstd::prelude::*;
use crate::text::chars_of;

verus! {

broadcast use vstd::seq_lib::group_to_multiset_ensures;

/// Lexicographic order by code point, the order of `String`'s `Ord`.
pub open spec fn lex_lt(a: Seq<char>, b: Seq<char>) -> bool
    decreases a.len(),
{
    if a.len() == 0 {
        b.len() > 0
    } else if b.len() == 0 {
        false
    } else if a[0] < b[0] {
        true
    } else if a[0] == b[0] {
        lex_lt(a.drop_first(), b.drop_first())
    } else {
        false
    }
}

/// The character contents of a sequence of strings.
pub open spec fn views(v: Seq<String>) -> Seq<Seq<char>> {
    v.map_values(|s: String| s@)
}

/// Non-decreasing in the lexicographic order.
pub open spec fn sorted(s: Seq<Seq<char>>) -> bool {
    forall|i: int, j: int| 0 <= i < j < s.len() ==> !lex_lt(s[j], s[i])
}

/// Strictly increasing in the lexicographic order (so without repeats).
pub open spec fn strictly_sorted(s: Seq<Seq<char>>) -> bool {
    forall|i: int, j: int| 0 <= i < j < s.len() ==> lex_lt(s[i], s[j])
}

pub proof fn lemma_lex_irreflexive(a: Seq<char>)
    ensures
        !lex_lt(a, a),
    decreases a.len(),
{
    if a.len() > 0 {
        lemma_lex_irreflexive(a.drop_first());
    }
}

pub proof fn lemma_lex_transitive(a: Seq<char>, b: Seq<char>, c: Seq<char>)
    requires
        lex_lt(a, b),
        lex_lt(b, c),
    ensures
        lex_lt(a, c),
    decreases a.len(),
{
    if a.len() > 0 && b.len() > 0 && c.len() > 0 && a[0] == b[0] && b[0] == c[0] {
        lemma_lex_transitive(a.drop_first(), b.drop_first(), c.drop_first());
    }
}

pub proof fn lemma_lex_total(a: Seq<char>, b: Seq<char>)
    ensures
        a == b || lex_lt(a, b) || lex_lt(b, a),
    decreases a.len(),
{
    if a.len() > 0 && b.len() > 0 && a[0] == b[0] {
        lemma_lex_total(a.drop_first(), b.drop_first());
        if a.drop_first() == b.drop_first() {
            assert(a =~= seq![a[0]] + a.drop_first());
            assert(b =~= seq![b[0]] + b.drop_first());
        }
    } else if a.len() == 0 && b.len() == 0 {
        assert(a =~= b);
    } else if a.len() > 0 && b.len() > 0 {
        assert(a[0] != b[0]);
        assert(a[0] < b[0] || b[0] < a[0]);
    }
}

pub proof fn lemma_lex_asymmetric(a: Seq<char>, b: Seq<char>)
    requires
        lex_lt(a, b),
    ensures
        !lex_lt(b, a),
{
    if lex_lt(b, a) {
        lemma_lex_transitive(a, b, a);
        lemma_lex_irreflexive(a);
    }
}

proof fn lemma_lex_skip(a: Seq<char>, b: Seq<char>, k: int)
    requires
        0 <= k <= a.len(),
        k <= b.len(),
        a.subrange(0, k) == b.subrange(0, k),
    ensures
        lex_lt(a, b) == lex_lt(a.skip(k), b.skip(k)),
    decreases k,
{
    if k > 0 {
        assert(a[0] == a.subrange(0, k)[0]);
        assert(b[0] == b.subrange(0, k)[0]);
        assert(a.drop_first().subrange(0, k - 1) =~= a.subrange(0, k).drop_first());
        assert(b.drop_first().subrange(0, k - 1) =~= b.subrange(0, k).drop_first());
        lemma_lex_skip(a.drop_first(), b.drop_first(), k - 1);
        assert(a.drop_first().skip(k - 1) =~= a.skip(k));
        assert(b.drop_first().skip(k - 1) =~= b.skip(k));
    } else {
        assert(a.skip(0) =~= a);
        assert(b.skip(0) =~= b);
    }
}

/// Whether `a` comes before `b` in the order of `String`'s `Ord`.
pub fn lex_less(a: &str, b: &str) -> (r: bool)
    ensures
        r == lex_lt(a@, b@),
{
    let x = chars_of(a);
    let y = chars_of(b);
    let mut k: usize = 0;
    while k < x.len() && k < y.len() && x[k] == y[k]
        invariant
            k <= x.len(),
            k <= y.len(),
            x@.subrange(0, k as int) == y@.subrange(0, k as int),
        decreases x.len() - k,
    {
        assert(x@.subrange(0, k + 1) =~= x@.subrange(0, k as int).push(x@[k as int]));
        assert(y@.subrange(0, k + 1) =~= y@.subrange(0, k as int).push(y@[k as int]));
        k = k + 1;
    }
    proof {
        lemma_lex_skip(x@, y@, k as int);
    }
    if k == x.len() {
        k < y.len()
    } else if k == y.len() {
        false
    } else {
        x[k] < y[k]
    }
}

/// The index at which `x` goes into the sorted `v`: after every element
/// that is smaller than `x`, before every other one.
fn insertion_point(v: &Vec<String>, x: &str) -> (p: usize)
    requires
        sorted(views(v@)),
    ensures
        p <= v.len(),
        forall|i: int| 0 <= i < p ==> lex_lt(#[trigger] v@[i]@, x@),
        forall|i: int| p <= i < v.len() ==> !lex_lt(#[trigger] v@[i]@, x@),
{
    let mut p: usize = 0;
    while p < v.len() && lex_less(v[p].as_str(), x)
        invariant
            p <= v.len(),
            forall|i: int| 0 <= i < p ==> lex_lt(#[trigger] v@[i]@, x@),
        decreases v.len() - p,
    {
        p = p + 1;
    }
    proof {
        assert forall|i: int| p <= i < v.len() implies !lex_lt(#[trigger] v@[i]@, x@) by {
            if i > p && lex_lt(v@[i]@, x@) {
                assert(!lex_lt(views(v@)[i], views(v@)[p as int]));
                lemma_lex_total(v@[i]@, v@[p as int]@);
                if v@[i]@ != v@[p as int]@ {
                    lemma_lex_transitive(v@[p as int]@, v@[i]@, x@);
                }
            }
        }
    }
    p
}

/// `v` in the lexicographic order, with every element kept.
pub fn sort_strings(v: Vec<String>) -> (r: Vec<String>)
    ensures
        sorted(views(r@)),
        views(r@).to_multiset() == views(v@).to_multiset(),
{
    let mut r: Vec<String> = Vec::new();
    let n = v.len();
    let mut k: usize = 0;
    while k < n
        invariant
            n == v.len(),
            k <= n,
            sorted(views(r@)),
            views(r@).to_multiset() == views(v@.take(k as int)).to_multiset(),
        decreases n - k,
    {
        let x = v[k].clone();
        let p = insertion_point(&r, x.as_str());
        let ghost old_r = r@;
        r.insert(p, x);
        proof {
            assert(views(r@) =~= views(old_r).insert(p as int, v@[k as int]@));
            assert(views(v@.take(k + 1)) =~= views(v@.take(k as int)).push(v@[k as int]@));
            assert forall|i: int, j: int| 0 <= i < j < r@.len() implies !lex_lt(
                views(r@)[j],
                views(r@)[i],
            ) by {
                if i < p && j == p {
                    assert(views(old_r)[i] == views(r@)[i]);
                    lemma_lex_asymmetric(views(r@)[i], views(r@)[j]);
                } else if i == p && j > p {
                    assert(views(old_r)[j - 1] == views(r@)[j]);
                } else if i < p && j > p {
                    assert(views(old_r)[i] == views(r@)[i]);
                    assert(views(old_r)[j - 1] == views(r@)[j]);
                } else if j < p {
                    assert(views(old_r)[i] == views(r@)[i]);
                    assert(views(old_r)[j] == views(r@)[j]);
                } else {
                    assert(views(old_r)[i - 1] == views(r@)[i]);
                    assert(views(old_r)[j - 1] == views(r@)[j]);
                }
            }
        }
        k = k + 1;
    }
    assert(v@.take(n as int) =~= v@);
    r
}

/// Adds `x` to the strictly sorted `v` unless it is already there.
pub fn insert_distinct(v: &mut Vec<String>, x: String)
    requires
        strictly_sorted(views(old(v)@)),
    ensures
        strictly_sorted(views(final(v)@)),
        forall|y: Seq<char>|
            views(final(v)@).contains(y) <==> (views(old(v)@).contains(y) || y == x@),
{
    proof {
        assert forall|i: int, j: int| 0 <= i < j < v@.len() implies !lex_lt(
            views(v@)[j],
            views(v@)[i],
        ) by {
            if lex_lt(views(v@)[j], views(v@)[i]) {
                lemma_lex_transitive(views(v@)[i], views(v@)[j], views(v@)[i]);
                lemma_lex_irreflexive(views(v@)[i]);
            }
        }
    }
    let p = insertion_point(v, x.as_str());
    if p < v.len() && crate::text::str_eq(v[p].as_str(), x.as_str()) {
        proof {
            assert(views(v@)[p as int] == x@);
            assert(views(v@).contains(x@));
        }
        return;
    }
    let ghost old_v = v@;
    assert(old_v == old(v)@);
    proof {
        if p < old_v.len() {
            lemma_lex_total(old_v[p as int]@, x@);
        }
    }
    v.insert(p, x);
    proof {
        assert(views(v@) =~= views(old_v).insert(p as int, x@));
        assert forall|i: int, j: int| 0 <= i < j < v@.len() implies lex_lt(
            views(v@)[i],
            views(v@)[j],
        ) by {
            if i < p && j == p {
            } else if i == p && j > p {
                assert(views(old_v)[j - 1] == views(v@)[j]);
                if j - 1 > p {
                    lemma_lex_transitive(x@, views(old_v)[p as int], views(old_v)[j - 1]);
                }
            } else if i < p && j > p {
                assert(views(old_v)[i] == views(v@)[i]);
                assert(views(old_v)[j - 1] == views(v@)[j]);
            } else if j < p {
                assert(views(old_v)[i] == views(v@)[i]);
                assert(views(old_v)[j] == views(v@)[j]);
            } else {
                assert(views(old_v)[i - 1] == views(v@)[i]);
                assert(views(old_v)[j - 1] == views(v@)[j]);
            }
        }
        assert forall|y: Seq<char>|
            views(v@).contains(y) <==> (views(old_v).contains(y) || y == x@) by {
            if views(v@).contains(y) {
                let i = choose|i: int| 0 <= i < views(v@).len() && views(v@)[i] == y;
                if i < p {
                    assert(views(old_v)[i] == y);
                } else if i > p {
                    assert(views(old_v)[i - 1] == y);
                }
            }
            if views(old_v).contains(y) {
                let i = choose|i: int| 0 <= i < views(old_v).len() && views(old_v)[i] == y;
                if i < p {
                    assert(views(v@)[i] == y);
                } else {
                    assert(views(v@)[i + 1] == y);
                }
            }
            if y == x@ {
                assert(views(v@)[p as int] == y);
            }
        }
    }
    assert(forall|y: Seq<char>| views(v@).contains(y) <==> (views(old(v)@).contains(y) || y == x@));
}

} // verus!
