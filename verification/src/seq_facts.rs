//! Facts about `Seq::filter` used by the store: how filtering interacts
//! with appending, that filtered elements come from the source, that
//! filtering preserves distinctness of a key, and that filtering is
//! idempotent.

use vstd::prelude::*;

verus! {

/// Filtering after appending one element appends it when it satisfies
/// the predicate and drops it otherwise.
pub proof fn lemma_filter_push<T>(s: Seq<T>, pred: spec_fn(T) -> bool, x: T)
    ensures
        s.push(x).filter(pred) == if pred(x) {
            s.filter(pred).push(x)
        } else {
            s.filter(pred)
        },
{
    reveal(Seq::filter);
    let t = s.push(x);
    assert(t.last() == x);
    assert(t.drop_last() =~= s);
}

/// Every element of a filtered sequence occurs in the source.
pub proof fn lemma_filter_in_source<T>(s: Seq<T>, pred: spec_fn(T) -> bool)
    ensures
        forall|i: int|
            0 <= i < s.filter(pred).len() ==> exists|j: int|
                0 <= j < s.len() && s[j] == #[trigger] s.filter(pred)[i],
    decreases s.len(),
{
    reveal(Seq::filter);
    if s.len() > 0 {
        let dl = s.drop_last();
        lemma_filter_in_source(dl, pred);
        assert forall|i: int| 0 <= i < s.filter(pred).len() implies exists|j: int|
            0 <= j < s.len() && s[j] == #[trigger] s.filter(pred)[i] by {
            if i < dl.filter(pred).len() {
                let j = choose|j: int| 0 <= j < dl.len() && dl[j] == dl.filter(pred)[i];
                assert(s[j] == s.filter(pred)[i]);
            } else {
                assert(s[s.len() - 1] == s.filter(pred)[i]);
            }
        }
    }
}

/// Filtering preserves pairwise distinctness of a key.
pub proof fn lemma_filter_distinct_by<T, K>(
    s: Seq<T>,
    pred: spec_fn(T) -> bool,
    key: spec_fn(T) -> K,
)
    requires
        forall|i: int, j: int|
            0 <= i < j < s.len() ==> key(#[trigger] s[i]) != key(#[trigger] s[j]),
    ensures
        forall|i: int, j: int|
            0 <= i < j < s.filter(pred).len() ==> key(#[trigger] s.filter(pred)[i]) != key(
                #[trigger] s.filter(pred)[j],
            ),
    decreases s.len(),
{
    reveal(Seq::filter);
    if s.len() > 0 {
        let dl = s.drop_last();
        lemma_filter_distinct_by(dl, pred, key);
        lemma_filter_in_source(dl, pred);
        if pred(s.last()) {
            assert forall|i: int, j: int|
                0 <= i < j < s.filter(pred).len() implies key(#[trigger] s.filter(pred)[i]) != key(
                #[trigger] s.filter(pred)[j],
            ) by {
                if j == s.filter(pred).len() - 1 {
                    let l = choose|l: int| 0 <= l < dl.len() && dl[l] == dl.filter(pred)[i];
                    assert(key(s[l]) != key(s[s.len() - 1]));
                }
            }
        }
    }
}

/// Filtering an already filtered sequence changes nothing.
pub proof fn lemma_filter_idempotent<T>(s: Seq<T>, pred: spec_fn(T) -> bool)
    ensures
        s.filter(pred).filter(pred) == s.filter(pred),
    decreases s.len(),
{
    reveal(Seq::filter);
    if s.len() == 0 {
    } else {
        let dl = s.drop_last();
        lemma_filter_idempotent(dl, pred);
        if pred(s.last()) {
            lemma_filter_push(dl.filter(pred), pred, s.last());
        }
    }
}

/// When no element satisfies the predicate, the filtered sequence is empty.
pub proof fn lemma_filter_none<T>(s: Seq<T>, pred: spec_fn(T) -> bool)
    requires
        forall|j: int| 0 <= j < s.len() ==> !pred(#[trigger] s[j]),
    ensures
        s.filter(pred) =~= Seq::<T>::empty(),
    decreases s.len(),
{
    reveal(Seq::filter);
    if s.len() > 0 {
        lemma_filter_none(s.drop_last(), pred);
    }
}

} // verus!
