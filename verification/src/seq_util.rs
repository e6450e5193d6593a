//! Small general lemmas about `Seq::filter` and `Seq::map_values`, used to
//! carry the pass's loop invariants one processed element at a time.

use vstd::prelude::*;

verus! {

/// Filtering a sequence extended by one element keeps the filtered prefix
/// and appends the element exactly when it satisfies the predicate.
pub proof fn lemma_filter_push<A>(s: Seq<A>, pred: spec_fn(A) -> bool, x: A)
    ensures
        s.push(x).filter(pred) == (if pred(x) {
            s.filter(pred).push(x)
        } else {
            s.filter(pred)
        }),
{
    reveal(Seq::filter);
    assert(s.push(x).drop_last() =~= s);
    assert(s.push(x).last() == x);
}

/// Mapping over a sequence extended by one element appends the image of that
/// element to the mapped prefix.
pub proof fn lemma_map_values_push<A, B>(s: Seq<A>, f: spec_fn(A) -> B, x: A)
    ensures
        s.push(x).map_values(f) == s.map_values(f).push(f(x)),
{
    assert(s.push(x).map_values(f) =~= s.map_values(f).push(f(x)));
}

/// When satisfying the inner predicate implies satisfying the outer one,
/// filtering by the outer predicate first changes nothing about what the
/// inner filter selects.
pub proof fn lemma_filter_filter_subsumed<A>(
    s: Seq<A>,
    outer: spec_fn(A) -> bool,
    inner: spec_fn(A) -> bool,
)
    requires
        forall|x: A| #[trigger] inner(x) ==> outer(x),
    ensures
        s.filter(outer).filter(inner) == s.filter(inner),
    decreases s.len(),
{
    reveal(Seq::filter);
    if s.len() == 0 {
    } else {
        let prefix = s.drop_last();
        let x = s.last();
        lemma_filter_filter_subsumed(prefix, outer, inner);
        assert(s =~= prefix.push(x));
        lemma_filter_push(prefix, outer, x);
        lemma_filter_push(prefix, inner, x);
        if outer(x) {
            lemma_filter_push(prefix.filter(outer), inner, x);
        }
    }
}

/// A filter whose predicate holds of no element yields the empty sequence.
pub proof fn lemma_filter_all_false<A>(s: Seq<A>, pred: spec_fn(A) -> bool)
    requires
        forall|i: int| 0 <= i < s.len() ==> !pred(#[trigger] s[i]),
    ensures
        s.filter(pred) == Seq::<A>::empty(),
    decreases s.len(),
{
    reveal(Seq::filter);
    if s.len() == 0 {
        assert(s =~= Seq::<A>::empty());
    } else {
        lemma_filter_all_false(s.drop_last(), pred);
        assert(!pred(s.last()));
    }
}

} // verus!
