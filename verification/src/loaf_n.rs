//! The non-empty buffer type, parameterized by the size of its head.

use vstd::prelude::*;

verus! {

/// A buffer that is guaranteed to hold at least `N` elements.
///
/// This generalizes [`crate::Loaf`]: the guaranteed head is `N` elements
/// long instead of one. `N` must be at least one, which is part of the
/// well-formedness invariant [`LoafN::wf`]; every constructor establishes
/// the invariant and every method preserves it.
pub struct LoafN<T, const N: usize> {
    elems: Vec<T>,
}

impl<T, const N: usize> View for LoafN<T, N> {
    type V = Seq<T>;

    closed spec fn view(&self) -> Seq<T> {
        self.elems@
    }
}

impl<T, const N: usize> LoafN<T, N> {
    /// The guarantee: the head holds at least one slot, and the buffer
    /// holds at least `N` elements.
    pub open spec fn wf(&self) -> bool {
        &&& N >= 1
        &&& self@.len() >= N as nat
    }

    /// The guaranteed head: the first `N` elements.
    pub open spec fn spec_head(&self) -> Seq<T>
        recommends
            self.wf(),
    {
        self@.take(N as int)
    }

    /// The tail: everything after the guaranteed head.
    pub open spec fn spec_rest(&self) -> Seq<T>
        recommends
            self.wf(),
    {
        self@.skip(N as int)
    }

    /// Wraps a buffer, succeeding exactly when it holds at least `N`
    /// elements. On failure the buffer is handed back unchanged.
    pub fn try_from_vec(v: Vec<T>) -> (r: Result<LoafN<T, N>, Vec<T>>)
        requires
            N >= 1,
        ensures
            v@.len() >= N as nat ==> (r matches Ok(l) && l.wf() && l@ == v@),
            v@.len() < N as nat ==> (r matches Err(w) && w == v),
    {
        if v.len() >= N {
            Ok(LoafN { elems: v })
        } else {
            Err(v)
        }
    }

    /// Wraps a buffer already known to hold at least `N` elements.
    ///
    /// The length check of [`LoafN::try_from_vec`] becomes a precondition
    /// here, for callers that have the guarantee in hand already.
    pub fn from_vec_unchecked(v: Vec<T>) -> (r: LoafN<T, N>)
        requires
            N >= 1,
            v@.len() >= N as nat,
        ensures
            r.wf(),
            r@ == v@,
    {
        LoafN { elems: v }
    }

    /// Releases the underlying buffer, untouched.
    pub fn into_vec(self) -> (r: Vec<T>)
        ensures
            r@ == self@,
    {
        self.elems
    }

    /// Returns the length of the underlying buffer.
    pub fn len(&self) -> (r: usize)
        requires
            self.wf(),
        ensures
            r == self@.len(),
            r >= N,
    {
        self.elems.len()
    }

    /// Returns a reference to the first element.
    pub fn first(&self) -> (r: &T)
        requires
            self.wf(),
        ensures
            *r == self@[0],
    {
        &self.elems[0]
    }

    /// Returns a reference to the last element.
    pub fn last(&self) -> (r: &T)
        requires
            self.wf(),
        ensures
            *r == self@[self@.len() - 1],
    {
        let n = self.elems.len();
        &self.elems[n - 1]
    }

    /// Returns a mutable reference to the first element. Writes through it
    /// land in the underlying buffer itself: no element is copied.
    pub fn first_mut(&mut self) -> (r: &mut T)
        requires
            old(self).wf(),
        ensures
            *r == old(self)@[0],
            final(self)@ == old(self)@.update(0, *final(r)),
            final(self).wf(),
    {
        &mut self.elems[0]
    }

    /// Returns a mutable reference to the last element. Writes through it
    /// land in the underlying buffer itself: no element is copied.
    pub fn last_mut(&mut self) -> (r: &mut T)
        requires
            old(self).wf(),
        ensures
            *r == old(self)@[old(self)@.len() - 1],
            final(self)@ == old(self)@.update(old(self)@.len() - 1, *final(r)),
            final(self).wf(),
    {
        let n = self.elems.len();
        &mut self.elems[n - 1]
    }

    /// Projects the loaf onto a plain slice of all its elements, in place.
    pub fn as_slice(&self) -> (r: &[T])
        ensures
            r@ == self@,
    {
        self.elems.as_slice()
    }

    /// Projects the loaf onto a plain mutable slice of all its elements, in
    /// place: writes through the slice land in the loaf itself.
    pub fn as_mut_slice(&mut self) -> (r: &mut [T])
        ensures
            r@ == old(self)@,
            final(self)@ == final(r)@,
    {
        self.elems.as_mut_slice()
    }

    /// Returns a reference to the first element together with everything
    /// after it; the rest starts inside the head when `N` is larger than
    /// one.
    pub fn split_first(&self) -> (r: (&T, &[T]))
        requires
            self.wf(),
        ensures
            *r.0 == self@[0],
            r.1@ == self@.skip(1),
    {
        let (head, rest) = self.elems.as_slice().split_at(1);
        (&head[0], rest)
    }

    /// Returns a mutable reference to the first element together with
    /// everything after it; writes through either part land in the loaf
    /// itself.
    pub fn split_first_mut(&mut self) -> (r: (&mut T, &mut [T]))
        requires
            old(self).wf(),
        ensures
            *r.0 == old(self)@[0],
            r.1@ == old(self)@.skip(1),
            final(self)@ == seq![*final(r.0)] + final(r.1)@,
    {
        let (head, rest) = self.elems.as_mut_slice().split_at_mut(1);
        let first = head.first_mut();
        (first.unwrap(), rest)
    }

    /// Removes and returns the last tail element. The tail must be
    /// non-empty, so the head guarantee is untouched.
    pub(crate) fn pop_rest(&mut self) -> (r: T)
        requires
            old(self).wf(),
            old(self)@.len() > N as nat,
        ensures
            final(self).wf(),
            r == old(self)@.last(),
            final(self)@ == old(self)@.drop_last(),
    {
        match self.elems.pop() {
            Some(x) => x,
            None => vstd::pervasive::unreached(),
        }
    }
}

/// Wrapping a buffer of length at least `N` succeeds, and the result holds
/// exactly the buffer's elements: its total length is the buffer's length.
pub proof fn lemma_wrap_n_total_length<T, const N: usize>(
    v: Vec<T>,
    r: Result<LoafN<T, N>, Vec<T>>,
)
    requires
        v@.len() >= N as nat,
        call_ensures(LoafN::<T, N>::try_from_vec, (v,), r),
    ensures
        r matches Ok(l) && l@.len() == v@.len() && l@ == v@,
{
}

/// Wrapping a buffer of length below `N` returns nothing but the buffer
/// itself, unchanged.
pub proof fn lemma_wrap_n_too_short<T, const N: usize>(v: Vec<T>, r: Result<LoafN<T, N>, Vec<T>>)
    requires
        v@.len() < N as nat,
        call_ensures(LoafN::<T, N>::try_from_vec, (v,), r),
    ensures
        r matches Err(w) && w == v,
{
}

/// Round trip: projecting a loaf onto a plain buffer and wrapping that
/// buffer again succeeds and yields a loaf with the very same total length
/// and elements as the loaf it started from.
pub proof fn lemma_wrap_n_round_trip<T, const N: usize>(
    l: LoafN<T, N>,
    v: Vec<T>,
    r: Result<LoafN<T, N>, Vec<T>>,
)
    requires
        l.wf(),
        v@ == l@,
        call_ensures(LoafN::<T, N>::try_from_vec, (v,), r),
    ensures
        r matches Ok(l2) && l2@ == l@ && l2@.len() == l@.len(),
{
}

} // verus!
