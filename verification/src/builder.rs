use core::cmp::Ordering;
use vstd::prelude::*;
use vstd::std_specs::cmp::{PartialEqSpec, PartialEqSpecImpl, PartialOrdSpec, PartialOrdSpecImpl};

verus! {

/// An incremental builder for a fixed-capacity array of `N` elements.
///
/// The builder owns a growable prefix of at most `N` live elements, kept in
/// insertion order. It is created empty (or full, by adopting a complete
/// array), grows one element at a time, and converts into a `[T; N]` once
/// every slot has been filled. Abandoning a partially filled builder simply
/// drops the live prefix; no finalization step is owed.
#[derive(Debug)]
pub struct ArrayBuilder<T, const N: usize> {
    buf: Vec<T>,
}

/// The clone holds one cloned element for each live element, in order.
impl<T: Clone, const N: usize> Clone for ArrayBuilder<T, N> {
    fn clone(&self) -> (r: Self)
        ensures
            r@.len() == self@.len(),
            forall|i: int| #![all_triggers] 0 <= i < self@.len() ==> cloned::<T>(self@[i], r@[i]),
            self.wf() ==> r.wf(),
    {
        ArrayBuilder { buf: self.buf.clone() }
    }
}

impl<T, const N: usize> View for ArrayBuilder<T, N> {
    type V = Seq<T>;

    /// The sequence of live elements, index 0 = first inserted.
    closed spec fn view(&self) -> Seq<T> {
        self.buf@
    }
}

impl<T, const N: usize> ArrayBuilder<T, N> {
    /// A builder never holds more than `N` live elements.
    pub open spec fn wf(&self) -> bool {
        self@.len() <= N
    }

    /// Creates an empty builder with room for `N` elements.
    pub fn new() -> (r: Self)
        ensures
            r@ == Seq::<T>::empty(),
            r.wf(),
    {
        ArrayBuilder { buf: Vec::new() }
    }

    /// The number of live elements, between 0 and `N`.
    pub fn len(&self) -> (r: usize)
        ensures
            r == self@.len(),
    {
        self.buf.len()
    }

    /// Whether all `N` slots hold a live element.
    pub fn is_full(&self) -> (r: bool)
        ensures
            r <==> self@.len() == N,
    {
        self.buf.len() == N
    }

    /// Whether no slot holds a live element.
    pub fn is_empty(&self) -> (r: bool)
        ensures
            r <==> self@.len() == 0,
    {
        self.buf.is_empty()
    }

    /// Appends `t` after the live elements. The builder must not be full;
    /// that obligation is discharged statically at every call site, so no
    /// capacity check is paid at run time.
    pub fn push_unchecked(&mut self, t: T)
        requires
            old(self).wf(),
            old(self)@.len() < N,
        ensures
            final(self).wf(),
            final(self)@ == old(self)@.push(t),
    {
        self.buf.push(t);
    }

    /// Appends `t` after the live elements; callers must establish that the
    /// builder is not full.
    pub fn push(&mut self, t: T)
        requires
            old(self).wf(),
            old(self)@.len() < N,
        ensures
            final(self).wf(),
            final(self)@ == old(self)@.push(t),
    {
        self.push_unchecked(t);
    }

    /// Appends `t` if there is room; on a full builder, hands `t` back
    /// unchanged and leaves the live elements untouched.
    pub fn try_push(&mut self, t: T) -> (r: Result<(), T>)
        requires
            old(self).wf(),
        ensures
            final(self).wf(),
            old(self)@.len() < N ==> r is Ok && final(self)@ == old(self)@.push(t),
            old(self)@.len() == N ==> r == Result::<(), T>::Err(t) && final(self)@ == old(self)@,
    {
        if self.buf.len() < N {
            self.push_unchecked(t);
            Ok(())
        } else {
            Err(t)
        }
    }

    /// Removes and returns the last-inserted live element. The builder must
    /// not be empty; that obligation is discharged statically at every call
    /// site, so no emptiness check is paid at run time.
    pub fn pop_unchecked(&mut self) -> (r: T)
        requires
            old(self).wf(),
            old(self)@.len() > 0,
        ensures
            final(self).wf(),
            r == old(self)@.last(),
            final(self)@ == old(self)@.drop_last(),
    {
        match self.buf.pop() {
            Some(t) => t,
            None => vstd::pervasive::unreached(),
        }
    }

    /// Removes and returns the last-inserted live element, or `None` on an
    /// empty builder, which is left untouched.
    pub fn pop(&mut self) -> (r: Option<T>)
        requires
            old(self).wf(),
        ensures
            final(self).wf(),
            old(self)@.len() > 0 ==> r == Some(old(self)@.last()) && final(self)@ == old(self)@.drop_last(),
            old(self)@.len() == 0 ==> r is None && final(self)@ == old(self)@,
    {
        if self.buf.len() > 0 {
            Some(self.pop_unchecked())
        } else {
            None
        }
    }

    /// Releases every live element, leaving the builder empty.
    pub fn clear(&mut self)
        ensures
            final(self).wf(),
            final(self)@ == Seq::<T>::empty(),
    {
        self.buf.clear();
    }

    /// Swaps the builder's whole state out for a fresh empty one, handing the
    /// previous live elements to the caller bundled in a new builder.
    pub fn take(&mut self) -> (r: Self)
        ensures
            r@ == old(self)@,
            old(self).wf() ==> r.wf(),
            final(self)@ == Seq::<T>::empty(),
            final(self).wf(),
    {
        let mut fresh = ArrayBuilder { buf: Vec::new() };
        core::mem::swap(self, &mut fresh);
        fresh
    }

    /// Adopts a complete `N`-element array as a full builder, transferring
    /// ownership of all `N` elements at once.
    pub fn from(array: [T; N]) -> (r: Self)
        ensures
            r@ == array@,
            r@.len() == N,
            r.wf(),
    {
        proof {
            vstd::array::array_len_matches_n(&array);
        }
        ArrayBuilder { buf: array_to_vec(array) }
    }

    /// Converts a full builder into the completed array, transferring
    /// ownership of all `N` elements to the caller. The builder must be full;
    /// that obligation is discharged statically at every call site, so no
    /// length check is paid at run time.
    pub fn build_unchecked(self) -> (r: [T; N])
        requires
            self@.len() == N,
        ensures
            r@ == self@,
    {
        vec_into_array(self.buf)
    }

    /// Converts a full builder into the completed array. On a builder that is
    /// not yet full, hands the builder back unchanged so the caller can keep
    /// filling it.
    pub fn build(self) -> (r: Result<[T; N], Self>)
        requires
            self.wf(),
        ensures
            self@.len() == N ==> (r matches Ok(a) && a@ == self@),
            self@.len() < N ==> (r matches Err(b) && b@ == self@ && b.wf()),
    {
        if self.buf.len() == N {
            Ok(self.build_unchecked())
        } else {
            Err(self)
        }
    }

    /// Borrows the live elements as a slice, in insertion order.
    pub fn as_slice(&self) -> (r: &[T])
        ensures
            r@ == self@,
    {
        self.buf.as_slice()
    }

    /// Borrows the live element at index `i`.
    pub fn get(&self, i: usize) -> (r: &T)
        requires
            i < self@.len(),
        ensures
            *r == self@[i as int],
    {
        vstd::std_specs::vec::vec_index(&self.buf, i)
    }

    /// Overwrites the live element at index `i` with `t`; the replaced
    /// element is dropped.
    pub fn set(&mut self, i: usize, t: T)
        requires
            old(self).wf(),
            i < old(self)@.len(),
        ensures
            final(self).wf(),
            final(self)@ == old(self)@.update(i as int, t),
    {
        let slot = vstd::std_specs::vec::vec_index_mut(&mut self.buf, i);
        *slot = t;
    }
}

/// Element-wise comparison of the live elements: two builders are equal when
/// they hold the same number of live elements and the elements agree
/// pairwise. The unused capacity of either builder plays no part.
impl<T: PartialEq, const N: usize> PartialEq for ArrayBuilder<T, N> {
    fn eq(&self, other: &Self) -> (r: bool) {
        self.buf == other.buf
    }
}

impl<T: PartialEq, const N: usize> PartialEqSpecImpl for ArrayBuilder<T, N> {
    open spec fn obeys_eq_spec() -> bool {
        T::obeys_eq_spec()
    }

    open spec fn eq_spec(&self, other: &Self) -> bool {
        &&& self@.len() == other@.len()
        &&& forall|i: int| #![auto] 0 <= i < self@.len() ==> self@[i].eq_spec(&other@[i])
    }
}

impl<T: Eq, const N: usize> Eq for ArrayBuilder<T, N> {
}

/// What lexicographic comparison of the live elements returns: the first
/// unequal pair of elements decides; when one sequence of live elements is a
/// strict prefix of the other, the shorter compares less.
pub open spec fn lex_cmp<T: PartialOrd>(a: Seq<T>, b: Seq<T>) -> Option<Ordering>
    decreases a.len(),
{
    if a.len() == 0 && b.len() == 0 {
        Some(Ordering::Equal)
    } else if a.len() == 0 {
        Some(Ordering::Less)
    } else if b.len() == 0 {
        Some(Ordering::Greater)
    } else {
        match a[0].partial_cmp_spec(&b[0]) {
            Some(Ordering::Equal) => lex_cmp(a.drop_first(), b.drop_first()),
            c => c,
        }
    }
}

/// Lexicographic comparison of the live elements, as slices of the element
/// type compare: element-wise up to the shorter length, with the shorter
/// builder less when it is a strict prefix of the longer.
impl<T: PartialOrd, const N: usize> PartialOrd for ArrayBuilder<T, N> {
    fn partial_cmp(&self, other: &Self) -> (r: Option<Ordering>) {
        let a_len = self.buf.len();
        let b_len = other.buf.len();
        let min_len: usize = if a_len < b_len {
            a_len
        } else {
            b_len
        };
        let mut i: usize = 0;
        proof {
            assert(self@.skip(0) =~= self@);
            assert(other@.skip(0) =~= other@);
        }
        while i < min_len
            invariant
                i <= min_len,
                a_len == self@.len(),
                b_len == other@.len(),
                min_len <= a_len,
                min_len <= b_len,
                min_len == a_len || min_len == b_len,
                T::obeys_partial_cmp_spec() ==> lex_cmp(self@, other@) == lex_cmp(
                    self@.skip(i as int),
                    other@.skip(i as int),
                ),
            decreases min_len - i,
        {
            let c = self.get(i).partial_cmp(other.get(i));
            match c {
                Some(Ordering::Equal) => {
                    proof {
                        if T::obeys_partial_cmp_spec() {
                            assert(self@.skip(i as int)[0] == self@[i as int]);
                            assert(other@.skip(i as int)[0] == other@[i as int]);
                            assert(self@.skip(i as int).drop_first() =~= self@.skip(i as int + 1));
                            assert(other@.skip(i as int).drop_first() =~= other@.skip(
                                i as int + 1,
                            ));
                        }
                    }
                    i = i + 1;
                }
                _ => {
                    proof {
                        if T::obeys_partial_cmp_spec() {
                            assert(self@.skip(i as int)[0] == self@[i as int]);
                            assert(other@.skip(i as int)[0] == other@[i as int]);
                        }
                    }
                    return c;
                }
            }
        }
        if a_len == b_len {
            Some(Ordering::Equal)
        } else if a_len < b_len {
            Some(Ordering::Less)
        } else {
            Some(Ordering::Greater)
        }
    }
}

impl<T: PartialOrd, const N: usize> PartialOrdSpecImpl for ArrayBuilder<T, N> {
    open spec fn obeys_partial_cmp_spec() -> bool {
        T::obeys_partial_cmp_spec()
    }

    open spec fn partial_cmp_spec(&self, other: &Self) -> Option<Ordering> {
        lex_cmp(self@, other@)
    }
}

/// Relies on `Vec::<T>::from::<[T; N]>`, which moves the array's `N` elements
/// into a vector in order.
#[verifier::external_body]
fn array_to_vec<T, const N: usize>(array: [T; N]) -> (r: Vec<T>)
    ensures
        r@ == array@,
{
    Vec::from(array)
}

/// Relies on `<[T; N] as TryFrom<Vec<T>>>::try_from`, which succeeds exactly
/// when the vector's length is `N` and returns an array of the vector's
/// elements in order.
#[verifier::external_body]
fn vec_into_array<T, const N: usize>(v: Vec<T>) -> (r: [T; N])
    requires
        v@.len() == N,
    ensures
        r@ == v@,
{
    let a: [T; N] = v.try_into().ok().unwrap();
    a
}

} // verus!
