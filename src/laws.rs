use vstd::prelude::*;
use crate::vector::retained;

verus! {

/// The contents after appending each element of `vs`, in turn, to `start`
/// (each step is what `VectorInsert::push_back` does to the contents).
pub open spec fn after_pushes<A>(start: Seq<A>, vs: Seq<A>) -> Seq<A>
    decreases vs.len(),
{
    if vs.len() == 0 {
        start
    } else {
        after_pushes(start.push(vs[0]), vs.skip(1))
    }
}

/// The number of set flags in `keep`.
pub open spec fn kept_count(keep: Seq<bool>) -> nat
    decreases keep.len(),
{
    if keep.len() == 0 {
        0
    } else {
        (if keep[0] {
            1nat
        } else {
            0nat
        }) + kept_count(keep.skip(1))
    }
}

proof fn lemma_after_pushes_concat<A>(start: Seq<A>, vs: Seq<A>)
    ensures
        after_pushes(start, vs) == start + vs,
    decreases vs.len(),
{
    if vs.len() == 0 {
        assert(start + vs =~= start);
    } else {
        lemma_after_pushes_concat(start.push(vs[0]), vs.skip(1));
        assert(start.push(vs[0]) + vs.skip(1) =~= start + vs);
    }
}

/// Appending the elements of `vs` one at a time to an empty buffer gives a buffer whose
/// size is the number of appends and whose element `i` is the `i`-th value appended.
pub proof fn lemma_push_sequence<A>(vs: Seq<A>)
    ensures
        after_pushes(Seq::<A>::empty(), vs).len() == vs.len(),
        forall|i: int| 0 <= i < vs.len() ==> after_pushes(Seq::<A>::empty(), vs)[i] == vs[i],
{
    lemma_after_pushes_concat(Seq::<A>::empty(), vs);
    assert(Seq::<A>::empty() + vs =~= vs);
}

/// Erasing the element at an index in bounds shortens the contents by exactly one,
/// keeps the elements before it in place and moves each element after it down by one.
pub proof fn lemma_erase_shifts<A>(s: Seq<A>, i: int)
    requires
        0 <= i < s.len(),
    ensures
        s.remove(i).len() == s.len() - 1,
        forall|j: int| 0 <= j < i ==> s.remove(i)[j] == s[j],
        forall|j: int| i < j < s.len() ==> s.remove(i)[j - 1] == s[j],
{
}

/// Truncating to `n` elements, where `n` is at most the size, leaves exactly `n`
/// elements, each unchanged.
pub proof fn lemma_truncate_prefix<A>(s: Seq<A>, n: int)
    requires
        0 <= n <= s.len(),
    ensures
        s.take(n).len() == n,
        forall|j: int| 0 <= j < n ==> s.take(n)[j] == s[j],
{
}

/// Retaining by a flag per element keeps exactly the flagged elements, in their order:
/// the result has one element per set flag, and the element at a flagged index `i`
/// lands at the position given by the number of flagged indices before it.
pub proof fn lemma_retained_order<A>(s: Seq<A>, keep: Seq<bool>)
    requires
        keep.len() == s.len(),
    ensures
        retained(s, keep).len() == kept_count(keep),
        forall|i: int|
            0 <= i < s.len() && #[trigger] keep[i] ==> kept_count(keep.take(i)) < kept_count(keep)
                && retained(s, keep)[kept_count(keep.take(i)) as int] == s[i],
    decreases s.len(),
{
    if s.len() > 0 {
        let r = retained(s.skip(1), keep.skip(1));
        lemma_retained_order(s.skip(1), keep.skip(1));
        assert forall|i: int| 0 <= i < s.len() && #[trigger] keep[i] implies kept_count(keep.take(i))
            < kept_count(keep) && retained(s, keep)[kept_count(keep.take(i)) as int] == s[i] by {
            if i == 0 {
                assert(keep.take(0).len() == 0);
            } else {
                let t = keep.take(i);
                assert(t[0] == keep[0]);
                assert(t.skip(1) =~= keep.skip(1).take(i - 1));
                assert(keep.skip(1)[i - 1] == keep[i]);
                assert(s.skip(1)[i - 1] == s[i]);
                let c: int = kept_count(keep.skip(1).take(i - 1)) as int;
                assert(c < kept_count(keep.skip(1)) && r[c] == s[i]);
                if keep[0] {
                    assert(kept_count(t) == c + 1);
                    assert((seq![s[0]] + r)[c + 1] == r[c]);
                } else {
                    assert(kept_count(t) == c);
                }
            }
        }
    }
}

} // verus!
