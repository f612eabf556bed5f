use core::cmp::Ordering;
use vstd::prelude::*;
use vstd::std_specs::cmp::{PartialEqSpec, PartialOrdSpec};

use crate::builder::{lex_cmp, ArrayBuilder};

verus! {

/// The sequence of live elements after pushing each element of `elems`, in
/// order, onto a builder whose live elements are `init`.
pub open spec fn view_after_pushes<T>(init: Seq<T>, elems: Seq<T>) -> Seq<T>
    decreases elems.len(),
{
    if elems.len() == 0 {
        init
    } else {
        view_after_pushes(init.push(elems[0]), elems.drop_first())
    }
}

/// Pushing a sequence of elements appends them, in insertion order, after the
/// elements already present.
pub proof fn lemma_pushes_append<T>(init: Seq<T>, elems: Seq<T>)
    ensures
        view_after_pushes(init, elems) == init + elems,
    decreases elems.len(),
{
    if elems.len() == 0 {
        assert(view_after_pushes(init, elems) =~= init + elems);
    } else {
        lemma_pushes_append(init.push(elems[0]), elems.drop_first());
        assert(init.push(elems[0]) + elems.drop_first() =~= init + elems);
    }
}

/// Law: a sequence of pushes into an empty builder of capacity `N` yields
/// exactly the pushed elements in insertion order; after the `k`-th push the
/// builder holds `k` live elements, so it becomes full precisely with the
/// `N`-th push — and `build` then succeeds on exactly the pushed elements.
pub proof fn lemma_fill_to_capacity<T, const N: usize>(elems: Seq<T>)
    ensures
        view_after_pushes(Seq::<T>::empty(), elems) == elems,
        view_after_pushes(Seq::<T>::empty(), elems).len() == N <==> elems.len() == N,
        forall|k: int|
            0 <= k <= elems.len() ==> #[trigger] view_after_pushes(
                Seq::<T>::empty(),
                elems.take(k),
            ).len() == k,
{
    lemma_pushes_append(Seq::<T>::empty(), elems);
    assert(Seq::<T>::empty() + elems =~= elems);
    assert forall|k: int| 0 <= k <= elems.len() implies #[trigger] view_after_pushes(
        Seq::<T>::empty(),
        elems.take(k),
    ).len() == k by {
        lemma_pushes_append(Seq::<T>::empty(), elems.take(k));
        assert(Seq::<T>::empty() + elems.take(k) =~= elems.take(k));
    }
}

/// Law: on a builder with live elements `s`, popping the last element and
/// pushing a replacement `t` keeps the length and every other element
/// unchanged, with `t` now last.
pub proof fn lemma_pop_then_push<T>(s: Seq<T>, t: T)
    requires
        s.len() > 0,
    ensures
        s.drop_last().push(t).len() == s.len(),
        forall|i: int| 0 <= i < s.len() - 1 ==> s.drop_last().push(t)[i] == s[i],
        s.drop_last().push(t).last() == t,
{
}

/// Law: builders of equal capacity holding the same number of live elements,
/// equal pairwise in order, are equal under `==`; what unused capacity either
/// builder has left plays no part.
pub proof fn lemma_eq_by_contents<T: PartialEq, const N: usize>(
    a: &ArrayBuilder<T, N>,
    b: &ArrayBuilder<T, N>,
)
    requires
        a@.len() == b@.len(),
        forall|i: int| #![auto] 0 <= i < a@.len() ==> a@[i].eq_spec(&b@[i]),
    ensures
        a.eq_spec(b),
{
}

proof fn lemma_lex_cmp_all_equal<T: PartialOrd>(a: Seq<T>, b: Seq<T>)
    requires
        a.len() == b.len(),
        forall|i: int| #![auto]
            0 <= i < a.len() ==> a[i].partial_cmp_spec(&b[i]) == Some(Ordering::Equal),
    ensures
        lex_cmp(a, b) == Some(Ordering::Equal),
    decreases a.len(),
{
    if a.len() > 0 {
        assert(a[0].partial_cmp_spec(&b[0]) == Some(Ordering::Equal));
        assert forall|i: int| #![auto]
            0 <= i < a.drop_first().len() implies a.drop_first()[i].partial_cmp_spec(
            &b.drop_first()[i],
        ) == Some(Ordering::Equal) by {
            assert(a.drop_first()[i] == a[i + 1]);
            assert(b.drop_first()[i] == b[i + 1]);
        }
        lemma_lex_cmp_all_equal(a.drop_first(), b.drop_first());
    }
}

proof fn lemma_lex_cmp_prefix<T: PartialOrd>(a: Seq<T>, b: Seq<T>)
    requires
        a.len() < b.len(),
        forall|i: int| #![auto]
            0 <= i < a.len() ==> a[i].partial_cmp_spec(&b[i]) == Some(Ordering::Equal),
    ensures
        lex_cmp(a, b) == Some(Ordering::Less),
    decreases a.len(),
{
    if a.len() > 0 {
        assert(a[0].partial_cmp_spec(&b[0]) == Some(Ordering::Equal));
        assert forall|i: int| #![auto]
            0 <= i < a.drop_first().len() implies a.drop_first()[i].partial_cmp_spec(
            &b.drop_first()[i],
        ) == Some(Ordering::Equal) by {
            assert(a.drop_first()[i] == a[i + 1]);
            assert(b.drop_first()[i] == b[i + 1]);
        }
        lemma_lex_cmp_prefix(a.drop_first(), b.drop_first());
    }
}

/// Law: builders holding the same number of live elements, pairwise comparing
/// equal in order, compare equal.
pub proof fn lemma_equal_contents_compare_equal<T: PartialOrd, const N: usize>(
    a: &ArrayBuilder<T, N>,
    b: &ArrayBuilder<T, N>,
)
    requires
        a@.len() == b@.len(),
        forall|i: int| #![auto]
            0 <= i < a@.len() ==> a@[i].partial_cmp_spec(&b@[i]) == Some(Ordering::Equal),
    ensures
        a.partial_cmp_spec(b) == Some(Ordering::Equal),
{
    lemma_lex_cmp_all_equal(a@, b@);
}

/// Law: a builder whose live elements pairwise compare equal to a strict
/// prefix of another's compares less — builders of different lengths compare
/// as their populated prefixes would (shorter-is-prefix ordering).
pub proof fn lemma_prefix_compares_less<T: PartialOrd, const N: usize>(
    a: &ArrayBuilder<T, N>,
    b: &ArrayBuilder<T, N>,
)
    requires
        a@.len() < b@.len(),
        forall|i: int| #![auto]
            0 <= i < a@.len() ==> a@[i].partial_cmp_spec(&b@[i]) == Some(Ordering::Equal),
    ensures
        a.partial_cmp_spec(b) == Some(Ordering::Less),
{
    lemma_lex_cmp_prefix(a@, b@);
}

} // verus!
