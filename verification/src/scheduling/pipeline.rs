//! The generic filter/sort pipeline: a candidate list is narrowed by pure
//! predicate stages and then put into a deterministic order by a comparator
//! stage.  The stages are higher-order functions; each caller hands in the
//! specification its predicate or comparator obeys, and gets the result
//! pinned against that specification.

use core::cmp::Ordering;
use vstd::prelude::*;
use vstd::relations::sorted_by;
use vstd::seq_lib::{to_multiset_contains, to_multiset_insert, to_multiset_remove};

verus! {

/// Retain the candidates on which the predicate holds, keeping their order.
///
/// `p` is the specification the predicate decides: the result is exactly the
/// input filtered by `p`.
pub fn filter_candidates<T, F: Fn(&T) -> bool>(
    items: Vec<T>,
    pred: F,
    Ghost(p): Ghost<spec_fn(T) -> bool>,
) -> (r: Vec<T>)
    requires
        forall|item: &T| #[trigger] call_requires(pred, (item,)),
        forall|item: &T, b: bool| #[trigger]
            call_ensures(pred, (item,), b) ==> (b <==> p(*item)),
    ensures
        r@ == items@.filter(p),
{
    let ghost orig = items@;
    let mut remaining = items;
    let mut kept: Vec<T> = Vec::new();
    let ghost mut k: int = 0;
    while remaining.len() > 0
        invariant
            0 <= k <= orig.len(),
            remaining@ =~= orig.subrange(k, orig.len() as int),
            kept@ == orig.subrange(0, k).filter(p),
            forall|item: &T| #[trigger] call_requires(pred, (item,)),
            forall|item: &T, b: bool| #[trigger]
                call_ensures(pred, (item,), b) ==> (b <==> p(*item)),
        decreases remaining@.len(),
    {
        let item = remaining.remove(0);
        let keep = pred(&item);
        proof {
            reveal(Seq::filter);
            assert(item == orig[k]);
            let sub = orig.subrange(0, k + 1);
            assert(sub.drop_last() =~= orig.subrange(0, k));
            assert(sub.last() == orig[k]);
            assert(sub.filter(p) == if p(orig[k]) {
                orig.subrange(0, k).filter(p).push(orig[k])
            } else {
                orig.subrange(0, k).filter(p)
            });
        }
        if keep {
            kept.push(item);
        }
        proof {
            k = k + 1;
        }
    }
    proof {
        assert(orig.subrange(0, orig.len() as int) =~= orig);
    }
    kept
}

/// Whether an ordering value is `Greater`.
fn is_greater(o: Ordering) -> (r: bool)
    ensures
        r == (o == Ordering::Greater),
{
    matches!(o, Ordering::Greater)
}

/// Sort the candidates by the comparator, best candidate first.
///
/// `leq` is the specification the comparator decides: the comparator returns
/// anything but `Greater` on a pair exactly when `leq` holds of it.  `leq`
/// must be total and transitive; the result is then a permutation of the
/// input sorted by `leq`.
pub fn sort_candidates<T, F: Fn(&T, &T) -> Ordering>(
    items: Vec<T>,
    cmp: F,
    Ghost(leq): Ghost<spec_fn(T, T) -> bool>,
) -> (r: Vec<T>)
    requires
        forall|a: &T, b: &T| #[trigger] call_requires(cmp, (a, b)),
        forall|a: &T, b: &T, o: Ordering| #[trigger]
            call_ensures(cmp, (a, b), o) ==> ((o != Ordering::Greater) <==> leq(*a, *b)),
        forall|a: T, b: T| #[trigger] leq(a, b) || #[trigger] leq(b, a),
        forall|a: T, b: T, c: T| #[trigger] leq(a, b) && #[trigger] leq(b, c) ==> leq(a, c),
    ensures
        r@.len() == items@.len(),
        r@.to_multiset() == items@.to_multiset(),
        sorted_by(r@, leq),
{
    let ghost orig = items@;
    let mut v = items;
    if v.len() <= 1 {
        return v;
    }
    let mut i: usize = 1;
    while i < v.len()
        invariant
            1 <= i <= v@.len(),
            v@.len() == orig.len(),
            v@.to_multiset() == orig.to_multiset(),
            sorted_by(v@.subrange(0, i as int), leq),
            forall|a: &T, b: &T| #[trigger] call_requires(cmp, (a, b)),
            forall|a: &T, b: &T, o: Ordering| #[trigger]
                call_ensures(cmp, (a, b), o) ==> ((o != Ordering::Greater) <==> leq(*a, *b)),
            forall|a: T, b: T| #[trigger] leq(a, b) || #[trigger] leq(b, a),
            forall|a: T, b: T, c: T| #[trigger] leq(a, b) && #[trigger] leq(b, c) ==> leq(a, c),
        decreases v@.len() - i,
    {
        let ghost s = v@;
        let mut j: usize = i;
        loop
            invariant
                0 <= j <= i < s.len(),
                v@ == s,
                forall|k: int| j <= k < i ==> !leq(#[trigger] s[k], s[i as int]),
                forall|a: &T, b: &T| #[trigger] call_requires(cmp, (a, b)),
                forall|a: &T, b: &T, o: Ordering| #[trigger]
                    call_ensures(cmp, (a, b), o) ==> ((o != Ordering::Greater) <==> leq(
                        *a,
                        *b,
                    )),
            ensures
                0 <= j <= i < s.len(),
                v@ == s,
                forall|k: int| j <= k < i ==> !leq(#[trigger] s[k], s[i as int]),
                j > 0 ==> leq(s[j - 1], s[i as int]),
            decreases j,
        {
            if j == 0 {
                break;
            }
            let o = cmp(&v[j - 1], &v[i]);
            if is_greater(o) {
                j -= 1;
            } else {
                break;
            }
        }
        let item = v.remove(i);
        v.insert(j, item);
        proof {
            let t = v@;
            let pre = s.subrange(0, i as int);
            assert(t == s.remove(i as int).insert(j as int, s[i as int]));
            assert(forall|k: int| 0 <= k < i ==> pre[k] == s[k]);
            // the element positions after the shift
            assert(forall|k: int| 0 <= k < j ==> #[trigger] t[k] == s[k]);
            assert(t[j as int] == s[i as int]);
            assert(forall|k: int| j < k <= i ==> #[trigger] t[k] == s[k - 1]);
            // the new prefix is sorted
            assert forall|k1: int, k2: int| 0 <= k1 < k2 < i + 1 implies #[trigger] leq(
                t[k1],
                t[k2],
            ) by {
                let x = s[i as int];
                if k2 < j as int {
                    assert(leq(pre[k1], pre[k2]));
                } else if k2 == j as int {
                    // below the insertion point the old prefix leads to x
                    assert(leq(s[j - 1], x));
                    if k1 < j - 1 {
                        assert(leq(pre[k1], pre[j - 1]));
                    }
                } else if k1 < j as int {
                    // k1 stayed, k2 moved up from k2 - 1; k1 < j <= k2 - 1
                    assert(leq(pre[k1], pre[k2 - 1]));
                } else if k1 == j as int {
                    // everything moved past the insertion point is above x
                    assert(leq(x, s[k2 - 1]) || leq(s[k2 - 1], x));
                    assert(!leq(s[k2 - 1], x));
                } else {
                    assert(leq(pre[k1 - 1], pre[k2 - 1]));
                }
            }
            assert forall|k1: int, k2: int|
                0 <= k1 < k2 < t.subrange(0, i + 1).len() implies #[trigger] leq(
                t.subrange(0, i + 1)[k1],
                t.subrange(0, i + 1)[k2],
            ) by {
                assert(t.subrange(0, i + 1)[k1] == t[k1]);
                assert(t.subrange(0, i + 1)[k2] == t[k2]);
                assert(leq(t[k1], t[k2]));
            }
            assert(sorted_by(t.subrange(0, i + 1), leq));
            // the multiset is untouched: one occurrence out, the same back in
            broadcast use vstd::multiset::group_multiset_axioms;

            let x = s[i as int];
            to_multiset_remove(s, i as int);
            to_multiset_insert(s.remove(i as int), j as int, x);
            to_multiset_contains(s, x);
            assert(s.contains(x));
            assert(s.to_multiset().count(x) > 0);
            assert(t.to_multiset() =~= s.to_multiset());
        }
        i += 1;
    }
    proof {
        assert(v@.subrange(0, v@.len() as int) =~= v@);
    }
    v
}

/// Order the candidates by the comparator, best candidate first, for a
/// comparator that need not be transitive.
///
/// `c` is the specification the comparator decides; it must at least be
/// antisymmetric in the `Greater` direction.  The result is a permutation of
/// the input in which no element is `Greater` than its successor.
pub fn rank_candidates<T, F: Fn(&T, &T) -> Ordering>(
    items: Vec<T>,
    cmp: F,
    Ghost(c): Ghost<spec_fn(T, T) -> Ordering>,
) -> (r: Vec<T>)
    requires
        forall|a: &T, b: &T| #[trigger] call_requires(cmp, (a, b)),
        forall|a: &T, b: &T, o: Ordering| #[trigger]
            call_ensures(cmp, (a, b), o) ==> o == c(*a, *b),
        forall|a: T, b: T| #[trigger] c(a, b) == Ordering::Greater ==> c(b, a)
            != Ordering::Greater,
    ensures
        r@.len() == items@.len(),
        r@.to_multiset() == items@.to_multiset(),
        forall|i: int| 0 <= i < r@.len() - 1 ==> #[trigger] c(r@[i], r@[i + 1])
            != Ordering::Greater,
{
    let ghost orig = items@;
    let mut v = items;
    if v.len() <= 1 {
        return v;
    }
    let mut i: usize = 1;
    while i < v.len()
        invariant
            1 <= i <= v@.len(),
            v@.len() == orig.len(),
            v@.to_multiset() == orig.to_multiset(),
            forall|k: int| 0 <= k < i - 1 ==> #[trigger] c(v@[k], v@[k + 1])
                != Ordering::Greater,
            forall|a: &T, b: &T| #[trigger] call_requires(cmp, (a, b)),
            forall|a: &T, b: &T, o: Ordering| #[trigger]
                call_ensures(cmp, (a, b), o) ==> o == c(*a, *b),
            forall|a: T, b: T| #[trigger] c(a, b) == Ordering::Greater ==> c(b, a)
                != Ordering::Greater,
        decreases v@.len() - i,
    {
        let ghost s = v@;
        let mut j: usize = i;
        loop
            invariant
                0 <= j <= i < s.len(),
                v@ == s,
                forall|k: int| j <= k < i ==> #[trigger] c(s[k], s[i as int])
                    == Ordering::Greater,
                forall|a: &T, b: &T| #[trigger] call_requires(cmp, (a, b)),
                forall|a: &T, b: &T, o: Ordering| #[trigger]
                    call_ensures(cmp, (a, b), o) ==> o == c(*a, *b),
            ensures
                0 <= j <= i < s.len(),
                v@ == s,
                forall|k: int| j <= k < i ==> #[trigger] c(s[k], s[i as int])
                    == Ordering::Greater,
                j > 0 ==> c(s[j - 1], s[i as int]) != Ordering::Greater,
            decreases j,
        {
            if j == 0 {
                break;
            }
            let o = cmp(&v[j - 1], &v[i]);
            if is_greater(o) {
                j -= 1;
            } else {
                break;
            }
        }
        let item = v.remove(i);
        v.insert(j, item);
        proof {
            broadcast use vstd::multiset::group_multiset_axioms;

            let t = v@;
            let x = s[i as int];
            assert(t == s.remove(i as int).insert(j as int, x));
            assert(forall|k: int| 0 <= k < j ==> #[trigger] t[k] == s[k]);
            assert(t[j as int] == x);
            assert(forall|k: int| j < k <= i ==> #[trigger] t[k] == s[k - 1]);
            // every adjacent pair of the new prefix is in order
            assert forall|k: int| 0 <= k < i implies #[trigger] c(t[k], t[k + 1])
                != Ordering::Greater by {
                if k + 1 < j as int {
                    assert(c(s[k], s[k + 1]) != Ordering::Greater);
                } else if k + 1 == j as int {
                    assert(c(s[j - 1], x) != Ordering::Greater);
                } else if k == j as int {
                    if j < i {
                        // the element shifted up was above x, so x is not
                        // above it
                        assert(c(s[j as int], x) == Ordering::Greater);
                    }
                } else {
                    let m = k - 1;
                    assert(c(s[m], s[m + 1]) != Ordering::Greater);
                    assert(s[m + 1] == s[k]);
                }
            }
            to_multiset_remove(s, i as int);
            to_multiset_insert(s.remove(i as int), j as int, x);
            to_multiset_contains(s, x);
            assert(s.contains(x));
            assert(s.to_multiset().count(x) > 0);
            assert(t.to_multiset() =~= s.to_multiset());
        }
        i += 1;
    }
    v
}

/// Whatever stands in a permutation of a filtered sequence satisfies the
/// filter's predicate, and whatever the predicate holds of is in the
/// permutation.
pub proof fn lemma_permutation_of_filter<T>(s: Seq<T>, p: spec_fn(T) -> bool, r: Seq<T>)
    requires
        r.to_multiset() == s.filter(p).to_multiset(),
    ensures
        forall|i: int| 0 <= i < r.len() ==> p(#[trigger] r[i]),
        forall|i: int| 0 <= i < s.len() && p(#[trigger] s[i]) ==> r.contains(s[i]),
{
    broadcast use vstd::seq_lib::group_filter_ensures;

    let fs = s.filter(p);
    assert forall|i: int| 0 <= i < r.len() implies p(#[trigger] r[i]) by {
        assert(r.contains(r[i]));
        to_multiset_contains(r, r[i]);
        to_multiset_contains(fs, r[i]);
        assert(fs.contains(r[i]));
        let k = choose|k: int| 0 <= k < fs.len() && fs[k] == r[i];
        assert(p(fs[k]));
    }
    assert forall|i: int| 0 <= i < s.len() && p(#[trigger] s[i]) implies r.contains(s[i]) by {
        assert(fs.contains(s[i]));
        to_multiset_contains(fs, s[i]);
        to_multiset_contains(r, s[i]);
    }
}

/// Filtering by one predicate and then by another filters by their
/// conjunction: how successive pipeline stages compose.
pub proof fn lemma_filter_filter<T>(s: Seq<T>, p: spec_fn(T) -> bool, q: spec_fn(T) -> bool)
    ensures
        s.filter(p).filter(q) == s.filter(|t: T| p(t) && q(t)),
    decreases s.len(),
{
    reveal(Seq::filter);
    let pq = |t: T| p(t) && q(t);
    if s.len() == 0 {
        assert(s.filter(p).filter(q) =~= s.filter(pq));
    } else {
        let prefix = s.drop_last();
        lemma_filter_filter(prefix, p, q);
        let x = s.last();
        if p(x) {
            assert(s.filter(p) == prefix.filter(p).push(x));
            assert(s.filter(p).drop_last() =~= prefix.filter(p));
            assert(s.filter(p).last() == x);
        } else {
            assert(s.filter(p) =~= prefix.filter(p));
        }
        assert(s.filter(p).filter(q) =~= s.filter(pq));
    }
}

} // verus!
