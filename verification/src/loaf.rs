//! The non-empty buffer type with a guaranteed head of one element.

use vstd::prelude::*;

verus! {

/// A buffer that is guaranteed to hold at least one element.
///
/// Conceptually a `Loaf` is a head element followed by a tail of arbitrary
/// length, stored contiguously. The guarantee is part of the type's
/// well-formedness invariant [`Loaf::wf`], which every constructor
/// establishes and every method preserves, so accessors like [`Loaf::first`]
/// and [`Loaf::last`] are total: they never need to report an empty buffer.
pub struct Loaf<T> {
    elems: Vec<T>,
}

impl<T> View for Loaf<T> {
    type V = Seq<T>;

    closed spec fn view(&self) -> Seq<T> {
        self.elems@
    }
}

impl<T> Loaf<T> {
    /// The non-emptiness guarantee: the buffer holds at least one element.
    pub open spec fn wf(&self) -> bool {
        self@.len() >= 1
    }

    /// The guaranteed head element.
    pub open spec fn spec_head(&self) -> T
        recommends
            self.wf(),
    {
        self@[0]
    }

    /// The tail: everything after the guaranteed head element.
    pub open spec fn spec_rest(&self) -> Seq<T>
        recommends
            self.wf(),
    {
        self@.skip(1)
    }

    /// Wraps a buffer as a `Loaf`, succeeding exactly when the buffer holds
    /// at least one element. On failure the buffer is handed back unchanged.
    pub fn try_from_vec(v: Vec<T>) -> (r: Result<Loaf<T>, Vec<T>>)
        ensures
            v@.len() >= 1 ==> (r matches Ok(l) && l.wf() && l@ == v@),
            v@.len() < 1 ==> (r matches Err(w) && w == v),
    {
        if v.len() >= 1 {
            Ok(Loaf { elems: v })
        } else {
            Err(v)
        }
    }

    /// Wraps a buffer already known to hold at least one element.
    ///
    /// The length check of [`Loaf::try_from_vec`] becomes a precondition
    /// here, for callers that have the guarantee in hand already.
    pub fn from_vec_unchecked(v: Vec<T>) -> (r: Loaf<T>)
        requires
            v@.len() >= 1,
        ensures
            r.wf(),
            r@ == v@,
    {
        Loaf { elems: v }
    }

    /// Releases the underlying buffer, untouched.
    pub fn into_vec(self) -> (r: Vec<T>)
        ensures
            r@ == self@,
    {
        self.elems
    }

    /// Returns the length of the underlying buffer.
    pub fn len(&self) -> (r: usize)
        requires
            self.wf(),
        ensures
            r == self@.len(),
            r >= 1,
    {
        self.elems.len()
    }

    /// Returns a reference to the first element.
    pub fn first(&self) -> (r: &T)
        requires
            self.wf(),
        ensures
            *r == self.spec_head(),
    {
        &self.elems[0]
    }

    /// Returns a reference to the last element.
    pub fn last(&self) -> (r: &T)
        requires
            self.wf(),
        ensures
            *r == self@[self@.len() - 1],
    {
        let n = self.elems.len();
        &self.elems[n - 1]
    }

    /// Returns a mutable reference to the first element. Writes through it
    /// land in the underlying buffer itself: no element is copied.
    pub fn first_mut(&mut self) -> (r: &mut T)
        requires
            old(self).wf(),
        ensures
            *r == old(self).spec_head(),
            final(self)@ == old(self)@.update(0, *final(r)),
            final(self).wf(),
    {
        &mut self.elems[0]
    }

    /// Returns a mutable reference to the last element. Writes through it
    /// land in the underlying buffer itself: no element is copied.
    pub fn last_mut(&mut self) -> (r: &mut T)
        requires
            old(self).wf(),
        ensures
            *r == old(self)@[old(self)@.len() - 1],
            final(self)@ == old(self)@.update(old(self)@.len() - 1, *final(r)),
            final(self).wf(),
    {
        let n = self.elems.len();
        &mut self.elems[n - 1]
    }

    /// Projects the loaf onto a plain slice of all its elements, in place.
    pub fn as_slice(&self) -> (r: &[T])
        ensures
            r@ == self@,
    {
        self.elems.as_slice()
    }

    /// Projects the loaf onto a plain mutable slice of all its elements, in
    /// place: writes through the slice land in the loaf itself.
    pub fn as_mut_slice(&mut self) -> (r: &mut [T])
        ensures
            r@ == old(self)@,
            final(self)@ == final(r)@,
    {
        self.elems.as_mut_slice()
    }

    /// Returns a reference to the head element together with the whole tail.
    pub fn split_first(&self) -> (r: (&T, &[T]))
        requires
            self.wf(),
        ensures
            *r.0 == self.spec_head(),
            r.1@ == self.spec_rest(),
    {
        let (head, rest) = self.elems.as_slice().split_at(1);
        (&head[0], rest)
    }

    /// Returns a mutable reference to the head element together with the
    /// whole tail; writes through either part land in the loaf itself.
    pub fn split_first_mut(&mut self) -> (r: (&mut T, &mut [T]))
        requires
            old(self).wf(),
        ensures
            *r.0 == old(self).spec_head(),
            r.1@ == old(self).spec_rest(),
            final(self)@ == seq![*final(r.0)] + final(r.1)@,
    {
        let (head, rest) = self.elems.as_mut_slice().split_at_mut(1);
        let first = head.first_mut();
        (first.unwrap(), rest)
    }

    /// Removes and returns the last tail element. The tail must be
    /// non-empty, so the head guarantee is untouched.
    pub(crate) fn pop_rest(&mut self) -> (r: T)
        requires
            old(self).wf(),
            old(self)@.len() >= 2,
        ensures
            final(self).wf(),
            r == old(self)@.last(),
            final(self)@ == old(self)@.drop_last(),
    {
        match self.elems.pop() {
            Some(x) => x,
            None => vstd::pervasive::unreached(),
        }
    }
}

/// Wrapping a buffer of length at least one succeeds, and the result holds
/// exactly the buffer's elements: its total length is the buffer's length.
pub proof fn lemma_wrap_total_length<T>(v: Vec<T>, r: Result<Loaf<T>, Vec<T>>)
    requires
        v@.len() >= 1,
        call_ensures(Loaf::<T>::try_from_vec, (v,), r),
    ensures
        r matches Ok(l) && l@.len() == v@.len() && l@ == v@,
{
}

/// Wrapping a buffer of length zero returns nothing but the buffer itself,
/// unchanged.
pub proof fn lemma_wrap_too_short<T>(v: Vec<T>, r: Result<Loaf<T>, Vec<T>>)
    requires
        v@.len() < 1,
        call_ensures(Loaf::<T>::try_from_vec, (v,), r),
    ensures
        r matches Err(w) && w == v,
{
}

/// Round trip: projecting a loaf onto a plain buffer and wrapping that
/// buffer again succeeds and yields a loaf with the very same total length
/// and elements as the loaf it started from.
pub proof fn lemma_wrap_round_trip<T>(l: Loaf<T>, v: Vec<T>, r: Result<Loaf<T>, Vec<T>>)
    requires
        l.wf(),
        v@ == l@,
        call_ensures(Loaf::<T>::try_from_vec, (v,), r),
    ensures
        r matches Ok(l2) && l2@ == l@ && l2@.len() == l@.len(),
{
}

} // verus!
