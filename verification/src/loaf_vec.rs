//! A growable buffer that keeps the non-emptiness guarantee across mutation.

use crate::loaf::Loaf;
use vstd::prelude::*;

verus! {

/// A growable buffer that always holds at least one element.
///
/// Construction checks the guarantee once; after that, the only operation
/// that can shorten the buffer, [`LoafVec::pop`], refuses to remove the
/// final element, so the guarantee holds for the whole life of the value.
pub struct LoafVec<T> {
    inner: Loaf<T>,
}

impl<T> View for LoafVec<T> {
    type V = Seq<T>;

    closed spec fn view(&self) -> Seq<T> {
        self.inner@
    }
}

impl<T> LoafVec<T> {
    /// The non-emptiness guarantee: the buffer holds at least one element.
    pub open spec fn wf(&self) -> bool {
        self@.len() >= 1
    }

    /// Wraps a growable buffer, succeeding exactly when it holds at least
    /// one element. On failure the buffer is handed back unchanged.
    pub fn from_vec(vec: Vec<T>) -> (r: Result<Self, Vec<T>>)
        ensures
            vec@.len() >= 1 ==> (r matches Ok(s) && s.wf() && s@ == vec@),
            vec@.len() < 1 ==> (r matches Err(w) && w == vec),
    {
        if vec.len() < 1 {
            return Err(vec);
        }

        let s = Self { inner: Loaf::from_vec_unchecked(vec) };
        Ok(s)
    }

    /// Releases the underlying buffer, untouched.
    pub fn into_vec(self) -> (r: Vec<T>)
        ensures
            r@ == self@,
    {
        self.inner.into_vec()
    }

    /// Views the buffer as a [`Loaf`], in place.
    pub fn as_loaf(&self) -> (r: &Loaf<T>)
        requires
            self.wf(),
        ensures
            r.wf(),
            r@ == self@,
    {
        &self.inner
    }

    /// Views the buffer as a mutable [`Loaf`], in place: writes through the
    /// loaf land in the buffer itself.
    pub fn as_mut_loaf(&mut self) -> (r: &mut Loaf<T>)
        requires
            old(self).wf(),
        ensures
            r.wf(),
            r@ == old(self)@,
            final(self)@ == final(r)@,
    {
        &mut self.inner
    }

    /// Projects the buffer onto a plain mutable slice of all its elements,
    /// in place: writes through the slice land in the buffer itself.
    pub fn as_mut_slice(&mut self) -> (r: &mut [T])
        ensures
            r@ == old(self)@,
            final(self)@ == final(r)@,
    {
        self.inner.as_mut_slice()
    }

    /// Projects the buffer onto a plain slice of all its elements, in place.
    pub fn as_slice(&self) -> (r: &[T])
        ensures
            r@ == self@,
    {
        self.inner.as_slice()
    }

    /// Removes and returns the last element, unless that would empty the
    /// buffer: the final element is never removed, so the length never
    /// drops below one.
    pub fn pop(&mut self) -> (r: Option<T>)
        requires
            old(self).wf(),
        ensures
            final(self).wf(),
            old(self)@.len() == 1 ==> (r is None && final(self)@ == old(self)@),
            old(self)@.len() > 1 ==> (r == Some(old(self)@.last()) && final(self)@ == old(
                self,
            )@.drop_last()),
            final(self)@.len() >= 1,
    {
        if self.inner.len() == 1 {
            return None;
        }

        Some(self.inner.pop_rest())
    }

    /// Freezes the buffer into a [`Loaf`], without touching its elements.
    pub fn into_boxed_loaf(self) -> (r: Loaf<T>)
        requires
            self.wf(),
        ensures
            r.wf(),
            r@ == self@,
    {
        self.inner
    }
}

} // verus!
