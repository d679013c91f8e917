//! Stable insertion order as a specification: a sequence sorted by
//! inserting each element after the leading ones that stay before it.

use vstd::prelude::*;

verus! {

/// Inserts `x` after every leading element that stays before it.
pub open spec fn insert_sorted<A>(s: Seq<A>, x: A, stays_before: spec_fn(A, A) -> bool) -> Seq<A>
    decreases s.len(),
{
    if s.len() == 0 {
        seq![x]
    } else if stays_before(s[0], x) {
        seq![s[0]] + insert_sorted(s.drop_first(), x, stays_before)
    } else {
        seq![x] + s
    }
}

/// The elements inserted one by one from the first: with `stays_before`
/// a total preorder's "not after", a stable sort.
pub open spec fn insertion_sort<A>(s: Seq<A>, stays_before: spec_fn(A, A) -> bool) -> Seq<A>
    decreases s.len(),
{
    if s.len() == 0 {
        seq![]
    } else {
        insert_sorted(insertion_sort(s.drop_last(), stays_before), s.last(), stays_before)
    }
}

/// Inserting at the first position whose element does not stay before `x`.
pub proof fn lemma_insert_sorted_at<A>(s: Seq<A>, x: A, stays_before: spec_fn(A, A) -> bool, p: int)
    requires
        0 <= p <= s.len(),
        forall|j: int| 0 <= j < p ==> stays_before(#[trigger] s[j], x),
        p < s.len() ==> !stays_before(s[p], x),
    ensures
        insert_sorted(s, x, stays_before) == s.take(p) + seq![x] + s.skip(p),
    decreases s.len(),
{
    if s.len() == 0 {
        assert(s.take(p) + seq![x] + s.skip(p) =~= seq![x]);
    } else if p == 0 {
        assert(s.take(0) + seq![x] + s.skip(0) =~= seq![x] + s);
    } else {
        let t = s.drop_first();
        assert forall|j: int| 0 <= j < p - 1 implies stays_before(#[trigger] t[j], x) by {
            assert(t[j] == s[j + 1]);
        }
        lemma_insert_sorted_at(t, x, stays_before, p - 1);
        assert(seq![s[0]] + (t.take(p - 1) + seq![x] + t.skip(p - 1)) =~= s.take(p) + seq![x] + s.skip(p));
    }
}

pub proof fn lemma_insert_sorted_len<A>(s: Seq<A>, x: A, stays_before: spec_fn(A, A) -> bool)
    ensures
        insert_sorted(s, x, stays_before).len() == s.len() + 1,
    decreases s.len(),
{
    if s.len() > 0 {
        lemma_insert_sorted_len(s.drop_first(), x, stays_before);
    }
}

pub proof fn lemma_insertion_sort_len<A>(s: Seq<A>, stays_before: spec_fn(A, A) -> bool)
    ensures
        insertion_sort(s, stays_before).len() == s.len(),
    decreases s.len(),
{
    if s.len() > 0 {
        lemma_insertion_sort_len(s.drop_last(), stays_before);
        lemma_insert_sorted_len(insertion_sort(s.drop_last(), stays_before), s.last(), stays_before);
    }
}

} // verus!
