//! Facts about filtered sequences that the proofs on the tables use.

use vstd::prelude::*;

verus! {

/// Filtering a sequence with one more element at its end keeps that element
/// exactly when it passes.
pub proof fn lemma_filter_push<A>(s: Seq<A>, pred: spec_fn(A) -> bool, a: A)
    ensures
        s.push(a).filter(pred) == if pred(a) {
            s.filter(pred).push(a)
        } else {
            s.filter(pred)
        },
{
    reveal(Seq::filter);
    assert(s.push(a).drop_last() =~= s);
}

/// Filtering keeps a sequence whole when every element passes.
pub proof fn lemma_filter_all<A>(s: Seq<A>, pred: spec_fn(A) -> bool)
    requires
        forall|i: int| 0 <= i < s.len() ==> pred(#[trigger] s[i]),
    ensures
        s.filter(pred) == s,
    decreases s.len(),
{
    reveal(Seq::filter);
    if s.len() > 0 {
        lemma_filter_all(s.drop_last(), pred);
        assert(s.drop_last().push(s.last()) =~= s);
    }
}

/// Filtering removes exactly the element at `k` when it alone fails.
pub proof fn lemma_filter_removes<A>(s: Seq<A>, pred: spec_fn(A) -> bool, k: int)
    requires
        0 <= k < s.len(),
        !pred(s[k]),
        forall|i: int| 0 <= i < s.len() && i != k ==> pred(#[trigger] s[i]),
    ensures
        s.filter(pred) == s.remove(k),
    decreases s.len(),
{
    reveal(Seq::filter);
    if k == s.len() - 1 {
        lemma_filter_all(s.drop_last(), pred);
        assert(s.drop_last() =~= s.remove(k));
    } else {
        lemma_filter_removes(s.drop_last(), pred, k);
        assert(s.drop_last().remove(k).push(s.last()) =~= s.remove(k));
    }
}

/// Two filters give the same result in either order.
pub proof fn lemma_filter_commutes<A>(s: Seq<A>, p: spec_fn(A) -> bool, q: spec_fn(A) -> bool)
    ensures
        s.filter(p).filter(q) == s.filter(q).filter(p),
    decreases s.len(),
{
    reveal(Seq::filter);
    if s.len() > 0 {
        let front = s.drop_last();
        let a = s.last();
        lemma_filter_commutes(front, p, q);
        if p(a) {
            lemma_filter_push(front.filter(p), q, a);
        }
        if q(a) {
            lemma_filter_push(front.filter(q), p, a);
        }
    }
}

/// An element of a filtered sequence is an element of the sequence, and
/// passes; and every element that passes is kept.
pub proof fn lemma_filter_members<A>(s: Seq<A>, pred: spec_fn(A) -> bool, a: A)
    ensures
        s.filter(pred).contains(a) <==> s.contains(a) && pred(a),
    decreases s.len(),
{
    reveal(Seq::filter);
    if s.len() > 0 {
        let front = s.drop_last();
        lemma_filter_members(front, pred, a);
        if s.filter(pred).contains(a) {
            let i = choose|i: int| 0 <= i < s.filter(pred).len() && s.filter(pred)[i] == a;
            if pred(s.last()) && i == front.filter(pred).len() {
                assert(s[s.len() - 1] == a);
            } else {
                assert(front.filter(pred)[i] == a);
                let j = choose|j: int| 0 <= j < front.len() && front[j] == a;
                assert(s[j] == a);
            }
        }
        if s.contains(a) && pred(a) {
            let j = choose|j: int| 0 <= j < s.len() && s[j] == a;
            if j == s.len() - 1 {
                assert(s.filter(pred)[s.filter(pred).len() - 1] == a);
            } else {
                assert(front[j] == a);
                let i = choose|i: int| 0 <= i < front.filter(pred).len() && front.filter(pred)[i] == a;
                assert(s.filter(pred)[i] == a);
            }
        }
    }
}

} // verus!
