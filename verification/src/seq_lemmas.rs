//! Facts about filtering a sequence that the registry proofs share.

use vstd::prelude::*;

verus! {

/// Two predicates that agree on every element of `s` select the same
/// subsequence.
pub proof fn lemma_filter_pointwise<A>(s: Seq<A>, p: spec_fn(A) -> bool, q: spec_fn(A) -> bool)
    requires
        forall|i: int| 0 <= i < s.len() ==> p(#[trigger] s[i]) == q(s[i]),
    ensures
        s.filter(p) == s.filter(q),
    decreases s.len(),
{
    reveal(Seq::filter);
    if s.len() > 0 {
        lemma_filter_pointwise(s.drop_last(), p, q);
    }
}

/// Filtering by `p` and then by `q` is filtering by their conjunction.
pub proof fn lemma_filter_twice<A>(
    s: Seq<A>,
    p: spec_fn(A) -> bool,
    q: spec_fn(A) -> bool,
    both: spec_fn(A) -> bool,
)
    requires
        forall|i: int| 0 <= i < s.len() ==> both(#[trigger] s[i]) == (p(s[i]) && q(s[i])),
    ensures
        s.filter(p).filter(q) == s.filter(both),
    decreases s.len(),
{
    reveal(Seq::filter);
    if s.len() > 0 {
        let front = s.drop_last();
        lemma_filter_twice(front, p, q, both);
        if p(s.last()) {
            front.filter(p).lemma_filter_push(s.last(), q);
        }
    }
}

/// A predicate that holds of every element keeps the sequence as it is.
pub proof fn lemma_filter_all<A>(s: Seq<A>, p: spec_fn(A) -> bool)
    requires
        forall|i: int| 0 <= i < s.len() ==> p(#[trigger] s[i]),
    ensures
        s.filter(p) == s,
    decreases s.len(),
{
    reveal(Seq::filter);
    if s.len() > 0 {
        lemma_filter_all(s.drop_last(), p);
        assert(s.drop_last().push(s.last()) =~= s);
    }
}

/// A predicate that holds of no element leaves nothing.
pub proof fn lemma_filter_none<A>(s: Seq<A>, p: spec_fn(A) -> bool)
    requires
        forall|i: int| 0 <= i < s.len() ==> !p(#[trigger] s[i]),
    ensures
        s.filter(p) == Seq::<A>::empty(),
    decreases s.len(),
{
    reveal(Seq::filter);
    if s.len() > 0 {
        lemma_filter_none(s.drop_last(), p);
    } else {
        assert(s =~= Seq::<A>::empty());
    }
}

/// Every element of a filtered sequence satisfies the predicate and occurs
/// in the sequence that was filtered.
pub proof fn lemma_filter_member<A>(s: Seq<A>, p: spec_fn(A) -> bool, j: int)
    requires
        0 <= j < s.filter(p).len(),
    ensures
        p(s.filter(p)[j]),
        exists|i: int| 0 <= i < s.len() && s[i] == s.filter(p)[j],
    decreases s.len(),
{
    reveal(Seq::filter);
    if s.len() > 0 {
        let front = s.drop_last();
        if p(s.last()) && j == front.filter(p).len() {
            assert(s[s.len() - 1] == s.filter(p)[j]);
        } else {
            lemma_filter_member(front, p, j);
            let i = choose|i: int| 0 <= i < front.len() && front[i] == front.filter(p)[j];
            assert(s[i] == s.filter(p)[j]);
        }
    }
}

/// Every element of a sequence that the predicate holds of is found in the
/// filtered sequence.
pub proof fn lemma_filter_keeps<A>(s: Seq<A>, p: spec_fn(A) -> bool, i: int)
    requires
        0 <= i < s.len(),
        p(s[i]),
    ensures
        exists|j: int| 0 <= j < s.filter(p).len() && s.filter(p)[j] == s[i],
    decreases s.len(),
{
    reveal(Seq::filter);
    let front = s.drop_last();
    if i == s.len() - 1 {
        assert(s.filter(p)[front.filter(p).len() as int] == s[i]);
    } else {
        lemma_filter_keeps(front, p, i);
        let j = choose|j: int| 0 <= j < front.filter(p).len() && front.filter(p)[j] == front[i];
        assert(s.filter(p)[j] == s[i]);
    }
}

} // verus!
