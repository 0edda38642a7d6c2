//! A growable buffer that keeps at least `N` elements across mutation.

use crate::loaf_n::LoafN;
use vstd::prelude::*;

verus! {

/// A growable buffer that always holds at least `N` elements.
///
/// Construction checks the guarantee once; after that, the only operation
/// that can shorten the buffer, [`LoafNVec::pop`], refuses to shrink it
/// below `N` elements, so the guarantee holds for the whole life of the
/// value.
pub struct LoafNVec<T, const N: usize> {
    inner: LoafN<T, N>,
}

impl<T, const N: usize> View for LoafNVec<T, N> {
    type V = Seq<T>;

    closed spec fn view(&self) -> Seq<T> {
        self.inner@
    }
}

impl<T, const N: usize> LoafNVec<T, N> {
    /// The guarantee: the head holds at least one slot, and the buffer
    /// holds at least `N` elements.
    pub open spec fn wf(&self) -> bool {
        &&& N >= 1
        &&& self@.len() >= N as nat
    }

    /// Wraps a growable buffer, succeeding exactly when it holds at least
    /// `N` elements. On failure the buffer is handed back unchanged.
    pub fn from_vec(vec: Vec<T>) -> (r: Result<Self, Vec<T>>)
        requires
            N >= 1,
        ensures
            vec@.len() >= N as nat ==> (r matches Ok(s) && s.wf() && s@ == vec@),
            vec@.len() < N as nat ==> (r matches Err(w) && w == vec),
    {
        if vec.len() < N {
            return Err(vec);
        }

        let s = Self { inner: LoafN::from_vec_unchecked(vec) };
        Ok(s)
    }

    /// Releases the underlying buffer, untouched.
    pub fn into_vec(self) -> (r: Vec<T>)
        ensures
            r@ == self@,
    {
        self.inner.into_vec()
    }

    /// Views the buffer as a [`LoafN`], in place.
    pub fn as_loaf(&self) -> (r: &LoafN<T, N>)
        requires
            self.wf(),
        ensures
            r.wf(),
            r@ == self@,
    {
        &self.inner
    }

    /// Views the buffer as a mutable [`LoafN`], in place: writes through
    /// the loaf land in the buffer itself.
    pub fn as_mut_loaf(&mut self) -> (r: &mut LoafN<T, N>)
        requires
            old(self).wf(),
        ensures
            r.wf(),
            r@ == old(self)@,
            final(self)@ == final(r)@,
    {
        &mut self.inner
    }

    /// Projects the buffer onto a plain mutable slice of all its elements,
    /// in place: writes through the slice land in the buffer itself.
    pub fn as_mut_slice(&mut self) -> (r: &mut [T])
        ensures
            r@ == old(self)@,
            final(self)@ == final(r)@,
    {
        self.inner.as_mut_slice()
    }

    /// Projects the buffer onto a plain slice of all its elements, in place.
    pub fn as_slice(&self) -> (r: &[T])
        ensures
            r@ == self@,
    {
        self.inner.as_slice()
    }

    /// Removes and returns the last element, unless that would shrink the
    /// buffer below `N` elements: the length never drops below `N`.
    pub fn pop(&mut self) -> (r: Option<T>)
        requires
            old(self).wf(),
        ensures
            final(self).wf(),
            old(self)@.len() == N as nat ==> (r is None && final(self)@ == old(self)@),
            old(self)@.len() > N as nat ==> (r == Some(old(self)@.last()) && final(self)@ == old(
                self,
            )@.drop_last()),
            final(self)@.len() >= N as nat,
    {
        if self.inner.len() == N {
            return None;
        }

        Some(self.inner.pop_rest())
    }

    /// Freezes the buffer into a [`LoafN`], without touching its elements.
    pub fn into_boxed_loaf(self) -> (r: LoafN<T, N>)
        requires
            self.wf(),
        ensures
            r.wf(),
            r@ == self@,
    {
        self.inner
    }
}

} // verus!
