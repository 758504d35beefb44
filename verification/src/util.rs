//! A wrapper that carries a value across threads on the caller's word.

use std::sync::Arc;
use vstd::prelude::*;

verus! {

/// Holds one value and hands it out unchanged.
///
/// The container adds no state and no check of its own. Whoever builds one
/// vouches that the way the value is then used from several threads is sound;
/// the container only passes the value through.
#[derive(Debug)]
pub struct SyncContainer<T>(T);

impl<T> View for SyncContainer<T> {
    type V = T;

    /// The wrapped value.
    closed spec fn view(&self) -> T {
        self.0
    }
}

impl<T> SyncContainer<T> {
    /// Wraps `t`. Nothing is checked.
    #[inline]
    pub fn new(t: T) -> (r: Self)
        ensures
            r@ == t,
    {
        SyncContainer(t)
    }
}

impl<T> std::ops::Deref for SyncContainer<T> {
    type Target = T;

    /// Reading through the container reads the wrapped value itself.
    #[inline]
    fn deref(&self) -> (r: &T)
        ensures
            *r == self@,
    {
        &self.0
    }
}

impl<T> std::ops::DerefMut for SyncContainer<T> {
    /// Writing through the container writes the wrapped value itself: what the
    /// container holds afterwards is what the borrow was left with.
    #[inline]
    fn deref_mut(&mut self) -> (r: &mut T)
        ensures
            *r == old(self)@,
            final(self)@ == *final(r),
    {
        &mut self.0
    }
}

impl<T: Clone> Clone for SyncContainer<T> {
    /// Duplicates the container by duplicating the wrapped value with its own
    /// `clone`, so a cheap handle stays cheap and a plain value is copied.
    #[inline]
    fn clone(&self) -> (r: Self)
        ensures
            cloned(self@, r@),
    {
        SyncContainer(self.0.clone())
    }
}

/// `Arc::clone`: one more pointer to the same allocation, so to the same
/// value.
#[verifier::external_body]
pub(crate) fn share<T>(handle: &Arc<T>) -> (r: Arc<T>)
    ensures
        r == *handle,
{
    Arc::clone(handle)
}

} // verus!
