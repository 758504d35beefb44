//! A buffer together with the native handle that reads from it.

use crate::util::share;
use crate::util::SyncContainer;
use std::ops::Deref;
use std::sync::Arc;
use vstd::prelude::*;

verus! {

/// Owns a buffer and the native handle that the backend derived from it.
///
/// The handle refers to the buffer's memory, so it has to go first: a
/// provider gives up its handle while it still holds the buffer, and the
/// buffer is let go only after that.
pub struct DataProvider<H, T> {
    provider: Option<SyncContainer<H>>,
    real_data: T,
}

impl<H, T> DataProvider<H, T> {
    /// Whether the provider still holds its handle.
    pub closed spec fn handle_live(&self) -> bool {
        self.provider is Some
    }

    /// The handle, while the provider holds it.
    pub closed spec fn handle(&self) -> H
        recommends
            self.handle_live(),
    {
        self.provider->0@
    }

    /// The buffer.
    pub closed spec fn buffer(&self) -> T {
        self.real_data
    }

    /// The provider as `release` leaves it: without its handle, with its
    /// buffer.
    pub closed spec fn released(self) -> Self {
        DataProvider { provider: None, real_data: self.real_data }
    }

    /// Releasing takes the handle and nothing else.
    pub proof fn lemma_released(self)
        ensures
            !self.released().handle_live(),
            self.released().buffer() == self.buffer(),
            self.released().released() == self.released(),
    {
    }

    /// Tells whether the provider still holds its handle.
    #[inline]
    pub fn is_live(&self) -> (b: bool)
        ensures
            b == self.handle_live(),
    {
        self.provider.is_some()
    }

    /// The handle that the backend derived from the buffer.
    #[inline]
    pub fn provider(&self) -> (r: &H)
        requires
            self.handle_live(),
        ensures
            *r == self.handle(),
    {
        match &self.provider {
            Some(p) => p.deref(),
            None => vstd::pervasive::unreached(),
        }
    }

    /// The first phase of teardown: lets the handle go, so that the backend
    /// stops reading the buffer, and keeps the buffer. Releasing twice is
    /// releasing once.
    #[inline]
    pub fn release(&mut self)
        ensures
            *final(self) == old(self).released(),
            !final(self).handle_live(),
            final(self).buffer() == old(self).buffer(),
        opens_invariants none
        no_unwind
    {
        self.provider = None;
    }
}

impl<H, T: Send + Sync> DataProvider<H, Arc<T>> {
    /// Wraps a shared buffer. The backend builds the handle from a share of
    /// its own, `make` being the backend's constructor; the provider keeps the
    /// share it was given.
    #[inline]
    pub fn from_arc<F: FnOnce(Arc<T>) -> H>(val: Arc<T>, make: F) -> (r: Self)
        requires
            call_requires(make, (val,)),
        ensures
            r.handle_live(),
            r.buffer() == val,
            call_ensures(make, (val,), r.handle()),
    {
        let provider = make(share(&val));
        DataProvider { provider: Some(SyncContainer::new(provider)), real_data: val }
    }
}

impl<H, T: Send + Sync> DataProvider<H, T> {
    /// Wraps a buffer. The backend builds the handle over the buffer as it
    /// lies, without copying, `make` being the backend's constructor; the
    /// provider keeps the buffer for as long as it lives.
    #[inline]
    pub fn new<F: FnOnce(&T) -> H>(val: T, make: F) -> (r: Self)
        requires
            call_requires(make, (&val,)),
        ensures
            r.handle_live(),
            r.buffer() == val,
            call_ensures(make, (&val,), r.handle()),
    {
        let provider = make(&val);
        DataProvider { provider: Some(SyncContainer::new(provider)), real_data: val }
    }
}

impl<H, T> Drop for DataProvider<H, T> {
    /// Teardown in two phases: the handle is released here, while the buffer
    /// is still held; the buffer goes when the provider itself does.
    #[inline]
    fn drop(&mut self)
        ensures
            *final(self) == old(self).released(),
            !final(self).handle_live(),
            final(self).buffer() == old(self).buffer(),
        opens_invariants none
        no_unwind
    {
        self.release();
    }
}

} // verus!
