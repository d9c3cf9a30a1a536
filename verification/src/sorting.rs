//! Lexicographic order on strings (the order of `String`'s `Ord`: UTF-8
//! byte order, which is the order of code points) and the sorted,
//! duplicate-free form of a list of strings.

use vstd::prelude::*;
use crate::text::{chars_of, str_eq, views};

verus! {

/// `a < b` in lexicographic code-point order.
pub open spec fn seq_lt(a: Seq<char>, b: Seq<char>) -> bool
    decreases a.len(),
{
    if a.len() == 0 {
        b.len() > 0
    } else if b.len() == 0 {
        false
    } else if a[0] != b[0] {
        (a[0] as int) < (b[0] as int)
    } else {
        seq_lt(a.drop_first(), b.drop_first())
    }
}

/// Every element is strictly below the ones after it.
pub open spec fn strictly_sorted(s: Seq<Seq<char>>) -> bool {
    forall|i: int, j: int| 0 <= i < j < s.len() ==> seq_lt(#[trigger] s[i], #[trigger] s[j])
}

/// The order is irreflexive.
pub proof fn lemma_lt_irreflexive(a: Seq<char>)
    ensures
        !seq_lt(a, a),
    decreases a.len(),
{
    if a.len() > 0 {
        lemma_lt_irreflexive(a.drop_first());
    }
}

/// The order is transitive.
pub proof fn lemma_lt_transitive(a: Seq<char>, b: Seq<char>, c: Seq<char>)
    requires
        seq_lt(a, b),
        seq_lt(b, c),
    ensures
        seq_lt(a, c),
    decreases a.len(),
{
    if a.len() > 0 && b.len() > 0 && c.len() > 0 && a[0] == b[0] && b[0] == c[0] {
        lemma_lt_transitive(a.drop_first(), b.drop_first(), c.drop_first());
    }
}

/// Two distinct strings are ordered one way or the other.
pub proof fn lemma_lt_total(a: Seq<char>, b: Seq<char>)
    requires
        a != b,
    ensures
        seq_lt(a, b) || seq_lt(b, a),
    decreases a.len(),
{
    if a.len() > 0 && b.len() > 0 && a[0] == b[0] {
        if a.drop_first() == b.drop_first() {
            assert(a =~= seq![a[0]] + a.drop_first());
            assert(b =~= seq![b[0]] + b.drop_first());
        }
        lemma_lt_total(a.drop_first(), b.drop_first());
    } else if a.len() == 0 && b.len() == 0 {
        assert(a =~= b);
    } else if a.len() > 0 && b.len() > 0 {
        assert((a[0] as int) != (b[0] as int));
    }
}

/// The order is asymmetric.
pub proof fn lemma_lt_asymmetric(a: Seq<char>, b: Seq<char>)
    requires
        seq_lt(a, b),
    ensures
        !seq_lt(b, a),
{
    if seq_lt(b, a) {
        lemma_lt_transitive(a, b, a);
        lemma_lt_irreflexive(a);
    }
}

/// `a < b` on string slices (`str`'s `Ord`).
pub fn str_less(a: &str, b: &str) -> (r: bool)
    ensures
        r == seq_lt(a@, b@),
{
    let av = chars_of(a);
    let bv = chars_of(b);
    let mut i: usize = 0;
    assert(av@.skip(0) =~= av@);
    assert(bv@.skip(0) =~= bv@);
    while i < av.len() && i < bv.len() && av[i] == bv[i]
        invariant
            i <= av@.len(),
            i <= bv@.len(),
            seq_lt(av@, bv@) == seq_lt(av@.skip(i as int), bv@.skip(i as int)),
        decreases av@.len() - i,
    {
        assert(av@.skip(i as int).drop_first() =~= av@.skip(i + 1));
        assert(bv@.skip(i as int).drop_first() =~= bv@.skip(i + 1));
        i = i + 1;
    }
    if i == av.len() {
        i < bv.len()
    } else if i == bv.len() {
        false
    } else {
        av[i] < bv[i]
    }
}

/// The strings of `v`, sorted and without duplicates (`sort` then `dedup`).
pub fn sorted_unique(v: &Vec<String>) -> (r: Vec<String>)
    ensures
        strictly_sorted(views(r@)),
        forall|x: Seq<char>| views(r@).contains(x) <==> views(v@).contains(x),
{
    let mut out: Vec<String> = Vec::new();
    let mut i: usize = 0;
    while i < v.len()
        invariant
            i <= v@.len(),
            strictly_sorted(views(out@)),
            forall|x: Seq<char>| views(out@).contains(x) <==> views(v@.take(i as int)).contains(x),
        decreases v@.len() - i,
    {
        let x = &v[i];
        let mut p: usize = 0;
        while p < out.len() && str_less(out[p].as_str(), x.as_str())
            invariant
                p <= out@.len(),
                forall|k: int| 0 <= k < p ==> seq_lt(#[trigger] views(out@)[k], x@),
            decreases out@.len() - p,
        {
            p = p + 1;
        }
        let ghost old_out = views(out@);
        let ghost before = views(v@.take(i as int));
        assert(views(v@.take(i + 1)) =~= before.push(x@));
        if p < out.len() && str_eq(out[p].as_str(), x.as_str()) {
            assert(old_out[p as int] == x@);
            assert forall|y: Seq<char>| views(out@).contains(y) <==> views(
                v@.take(i + 1),
            ).contains(y) by {
                if y == x@ {
                    assert(old_out.contains(y));
                }
                if before.push(x@).contains(y) && y != x@ {
                    let k = choose|k: int| 0 <= k < before.push(x@).len() && before.push(x@)[k] == y;
                    assert(before[k] == y);
                }
                if before.contains(y) {
                    let k = choose|k: int| 0 <= k < before.len() && before[k] == y;
                    assert(before.push(x@)[k] == y);
                }
            }
        } else {
            proof {
                if p < old_out.len() {
                    lemma_lt_total(old_out[p as int], x@);
                    assert(seq_lt(x@, old_out[p as int]));
                }
            }
            out.insert(p, x.clone());
            let ghost now = views(out@);
            assert(now =~= old_out.insert(p as int, x@));
            assert forall|a: int, b: int| 0 <= a < b < now.len() implies seq_lt(
                #[trigger] now[a],
                #[trigger] now[b],
            ) by {
                if b < p {
                } else if b == p {
                } else if a < p {
                    assert(seq_lt(old_out[a], x@));
                    lemma_lt_transitive(old_out[a], x@, old_out[p as int]);
                    if b - 1 > p {
                        lemma_lt_transitive(old_out[a], old_out[p as int], old_out[b - 1]);
                    }
                } else if a == p {
                    if b - 1 > p {
                        lemma_lt_transitive(x@, old_out[p as int], old_out[b - 1]);
                    }
                } else {
                    assert(now[a] == old_out[a - 1]);
                    assert(now[b] == old_out[b - 1]);
                }
            }
            assert forall|y: Seq<char>| now.contains(y) <==> views(v@.take(i + 1)).contains(y) by {
                if now.contains(y) && y != x@ {
                    let k = choose|k: int| 0 <= k < now.len() && now[k] == y;
                    if k < p {
                        assert(old_out[k] == y);
                    } else {
                        assert(old_out[k - 1] == y);
                    }
                    assert(old_out.contains(y));
                    let q = choose|q: int| 0 <= q < before.len() && before[q] == y;
                    assert(before.push(x@)[q] == y);
                }
                if y == x@ {
                    assert(now[p as int] == y);
                    assert(before.push(x@)[before.len() as int] == y);
                }
                if before.push(x@).contains(y) && y != x@ {
                    let k = choose|k: int| 0 <= k < before.push(x@).len() && before.push(x@)[k] == y;
                    assert(before[k] == y);
                    assert(old_out.contains(y));
                    let q = choose|q: int| 0 <= q < old_out.len() && old_out[q] == y;
                    if q < p {
                        assert(now[q] == y);
                    } else {
                        assert(now[q + 1] == y);
                    }
                }
            }
        }
        i = i + 1;
    }
    assert(v@.take(v@.len() as int) =~= v@);
    out
}

/// Strictly sorted lists with the same elements are the same list: the
/// sorted, duplicate-free form depends only on the set of strings.
pub proof fn lemma_sorted_unique_canonical(s: Seq<Seq<char>>, t: Seq<Seq<char>>)
    requires
        strictly_sorted(s),
        strictly_sorted(t),
        forall|x: Seq<char>| s.contains(x) <==> t.contains(x),
    ensures
        s == t,
    decreases s.len(),
{
    if s.len() == 0 {
        if t.len() > 0 {
            assert(t.contains(t[0]));
        }
        assert(s =~= t);
    } else if t.len() == 0 {
        assert(s.contains(s[0]));
    } else {
        // The least elements agree.
        assert(s.contains(s[0]));
        assert(t.contains(t[0]));
        let i = choose|i: int| 0 <= i < t.len() && t[i] == s[0];
        let j = choose|j: int| 0 <= j < s.len() && s[j] == t[0];
        if i > 0 {
            assert(seq_lt(t[0], t[i]));
            if j > 0 {
                assert(seq_lt(s[0], s[j]));
                lemma_lt_asymmetric(s[0], t[0]);
            } else {
                lemma_lt_irreflexive(t[0]);
            }
        }
        assert(s[0] == t[0]);
        let s1 = s.drop_first();
        let t1 = t.drop_first();
        assert forall|x: Seq<char>| s1.contains(x) <==> t1.contains(x) by {
            if s1.contains(x) {
                let k = choose|k: int| 0 <= k < s1.len() && s1[k] == x;
                assert(s[k + 1] == x);
                assert(s.contains(x));
                let q = choose|q: int| 0 <= q < t.len() && t[q] == x;
                if q == 0 {
                    assert(seq_lt(s[0], s[k + 1]));
                    lemma_lt_irreflexive(x);
                }
                assert(t1[q - 1] == x);
            }
            if t1.contains(x) {
                let k = choose|k: int| 0 <= k < t1.len() && t1[k] == x;
                assert(t[k + 1] == x);
                assert(t.contains(x));
                let q = choose|q: int| 0 <= q < s.len() && s[q] == x;
                if q == 0 {
                    assert(seq_lt(t[0], t[k + 1]));
                    lemma_lt_irreflexive(x);
                }
                assert(s1[q - 1] == x);
            }
        }
        assert forall|a: int, b: int| 0 <= a < b < s1.len() implies seq_lt(#[trigger] s1[a], #[trigger] s1[b]) by {
            assert(s1[a] == s[a + 1]);
            assert(s1[b] == s[b + 1]);
        }
        assert forall|a: int, b: int| 0 <= a < b < t1.len() implies seq_lt(#[trigger] t1[a], #[trigger] t1[b]) by {
            assert(t1[a] == t[a + 1]);
            assert(t1[b] == t[b + 1]);
        }
        lemma_sorted_unique_canonical(s1, t1);
        assert(s =~= seq![s[0]] + s1);
        assert(t =~= seq![t[0]] + t1);
    }
}

} // verus!
