//! An asynchronous mutex that protects a value
use vstd::prelude::*;
use crate::async_locker::{without_key, LockPoll, WakerSet};
use crate::async_locker::exclusive_lock::ExclusiveGuard;
use crate::exclusive_lock::RawExclusiveLock;
use crate::mutex::RawMutex;

pub mod raw;

verus! {

/// A mutex whose waiting tasks register wakers instead of blocking, and that
/// protects a value
pub struct Mutex<L, W, T> {
    raw: raw::Mutex<L, W>,
    value: T,
}

impl<L, W, T> Mutex<L, W, T> {
    /// The lock word
    pub closed spec fn lock_view(&self) -> L {
        self.raw.lock_view()
    }

    /// The wakers of the waiting tasks
    pub closed spec fn waker_view(&self) -> W {
        self.raw.waker_view()
    }

    /// The protected value
    pub closed spec fn value_view(&self) -> T {
        self.value
    }

    /// A mutex from a raw mutex that holds no lock and a value
    pub fn from_raw_parts(raw: raw::Mutex<L, W>, value: T) -> (r: Self)
        ensures
            r.lock_view() == raw.lock_view(),
            r.waker_view() == raw.waker_view(),
            r.value_view() == value,
    {
        Mutex { raw, value }
    }

    /// Decomposes the mutex into its raw mutex and its value
    pub fn into_raw_parts(self) -> (r: (raw::Mutex<L, W>, T))
        ensures
            r.0.lock_view() == self.lock_view(),
            r.0.waker_view() == self.waker_view(),
            r.1 == self.value_view(),
    {
        (self.raw, self.value)
    }

    /// Consumes the mutex, returning the protected value
    pub fn into_inner(self) -> (r: T)
        ensures
            r == self.value_view(),
    {
        self.value
    }

    /// The underlying raw mutex
    pub fn raw(&self) -> (r: &raw::Mutex<L, W>)
        ensures
            r.lock_view() == self.lock_view(),
            r.waker_view() == self.waker_view(),
    {
        &self.raw
    }

    /// The protected value, reached without locking through the mutable
    /// borrow of the mutex
    pub fn get_mut(&mut self) -> (r: &mut T)
        ensures
            *r == old(self).value_view(),
            final(self).value_view() == *final(r),
            final(self).lock_view() == old(self).lock_view(),
            final(self).waker_view() == old(self).waker_view(),
    {
        &mut self.value
    }
}

impl<L: RawMutex + crate::Init, W: WakerSet + crate::Init, T> Mutex<L, W, T> {
    /// A mutex in its initial state protecting `value`
    pub fn new(value: T) -> (r: Self)
        ensures
            r.lock_view().is_init(),
            r.lock_view().exc_wf(),
            r.lock_view().exc_count() == 0,
            r.lock_view().exc_available(),
            r.waker_view().is_init(),
            r.value_view() == value,
    {
        let r: Self = Mutex { raw: raw::Mutex::new(), value };
        proof {
            r.lock_view().lemma_init_available();
        }
        r
    }
}

impl<L: RawMutex, W: WakerSet, T> Mutex<L, W, T> {
    /// Attempts to acquire the mutex without waiting
    pub fn try_lock(&mut self) -> (r: Option<ExclusiveGuard<'_, L, W, T>>)
        requires
            old(self).lock_view().exc_wf(),
        ensures
            r is Some <==> old(self).lock_view().exc_available(),
            r matches Some(g) ==> g.raw.lock_view().exc_wf()
                && g.raw.lock_view().exc_count() == old(self).lock_view().exc_count() + 1
                && g.raw.waker_view() == old(self).waker_view()
                && g.value_view() == old(self).value_view()
                && final(self).lock_view() == *final(g.raw.inner.lock)
                && final(self).waker_view() == *final(g.raw.waker_set)
                && final(self).value_view() == *final(g.value),
            r is None ==> *final(self) == *old(self),
    {
        match self.raw.try_lock() {
            Some(raw) => Some(ExclusiveGuard { raw, value: &mut self.value }),
            None => None,
        }
    }

    /// One poll of the future that acquires the mutex: `key` is the
    /// registration left by the previous poll, if any
    pub fn poll_lock(&mut self, key: Option<W::Index>, cx: &mut core::task::Context) -> (r: LockPoll<ExclusiveGuard<'_, L, W, T>, W::Index>)
        requires
            old(self).lock_view().exc_wf(),
            key matches Some(k) ==> old(self).waker_view().keys().contains(k),
        ensures
            r is Ready <==> old(self).lock_view().exc_available(),
            r matches LockPoll::Ready(g) ==> g.raw.lock_view().exc_wf()
                && g.raw.lock_view().exc_count() == old(self).lock_view().exc_count() + 1
                && g.raw.waker_view().keys() == without_key(old(self).waker_view().keys(), key)
                && g.raw.waker_view().woken() == without_key(old(self).waker_view().woken(), key)
                && g.value_view() == old(self).value_view()
                && final(self).lock_view() == *final(g.raw.inner.lock)
                && final(self).waker_view() == *final(g.raw.waker_set)
                && final(self).value_view() == *final(g.value),
            r matches LockPoll::Pending(k) ==> final(self).lock_view() == old(self).lock_view()
                && !without_key(old(self).waker_view().keys(), key).contains(k)
                && final(self).waker_view().keys() == without_key(old(self).waker_view().keys(), key).insert(k)
                && final(self).waker_view().woken() == without_key(old(self).waker_view().woken(), key)
                && final(self).value_view() == old(self).value_view(),
    {
        match self.raw.poll_lock(key, cx) {
            LockPoll::Ready(raw) => LockPoll::Ready(ExclusiveGuard { raw, value: &mut self.value }),
            LockPoll::Pending(k) => LockPoll::Pending(k),
        }
    }
}

impl<L: RawMutex + crate::Init, W: WakerSet + crate::Init, T: Default> Default for Mutex<L, W, T> {
    /// A mutex in its initial state protecting the default value
    fn default() -> (r: Self)
        ensures
            r.lock_view().is_init(),
            r.lock_view().exc_wf(),
            r.lock_view().exc_count() == 0,
            r.lock_view().exc_available(),
            r.waker_view().is_init(),
    {
        let r: Self = Mutex { raw: raw::Mutex::new(), value: T::default() };
        proof {
            r.lock_view().lemma_init_available();
        }
        r
    }
}

} // verus!
