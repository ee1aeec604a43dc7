//! An asynchronous reentrant mutex that protects a value
use vstd::prelude::*;
use crate::async_locker::{woke_one, without_key, LockPoll, WakerSet};
use crate::async_locker::share_lock::ShareGuard;
use crate::remutex::RawReentrantMutex;
use crate::share_lock::RawShareLock;

pub mod raw;

verus! {

/// A reentrant mutex whose waiting tasks register wakers instead of
/// blocking, and that protects a value
pub struct ReentrantMutex<L, W, T> {
    raw: raw::ReentrantMutex<L, W>,
    value: T,
}

impl<L, W, T> ReentrantMutex<L, W, T> {
    /// The lock word
    pub closed spec fn lock_view(&self) -> L {
        self.raw.lock_view()
    }

    /// The wakers of the waiting tasks
    pub closed spec fn waker_view(&self) -> W {
        self.raw.waker_view()
    }

    /// The protected value
    pub closed spec fn value_view(&self) -> T {
        self.value
    }

    /// A reentrant mutex from a raw one that holds no lock and a value
    pub fn from_raw_parts(raw: raw::ReentrantMutex<L, W>, value: T) -> (r: Self)
        ensures
            r.lock_view() == raw.lock_view(),
            r.waker_view() == raw.waker_view(),
            r.value_view() == value,
    {
        ReentrantMutex { raw, value }
    }

    /// Decomposes the reentrant mutex into its raw mutex and its value
    pub fn into_raw_parts(self) -> (r: (raw::ReentrantMutex<L, W>, T))
        ensures
            r.0.lock_view() == self.lock_view(),
            r.0.waker_view() == self.waker_view(),
            r.1 == self.value_view(),
    {
        (self.raw, self.value)
    }

    /// Consumes the reentrant mutex, returning the protected value
    pub fn into_inner(self) -> (r: T)
        ensures
            r == self.value_view(),
    {
        self.value
    }

    /// The underlying raw reentrant mutex
    pub fn raw(&self) -> (r: &raw::ReentrantMutex<L, W>)
        ensures
            r.lock_view() == self.lock_view(),
            r.waker_view() == self.waker_view(),
    {
        &self.raw
    }

    /// The protected value, reached without locking through the mutable
    /// borrow of the reentrant mutex
    pub fn get_mut(&mut self) -> (r: &mut T)
        ensures
            *r == old(self).value_view(),
            final(self).value_view() == *final(r),
            final(self).lock_view() == old(self).lock_view(),
            final(self).waker_view() == old(self).waker_view(),
    {
        &mut self.value
    }
}

impl<L: RawReentrantMutex + crate::Init, W: WakerSet + crate::Init, T> ReentrantMutex<L, W, T> {
    /// A reentrant mutex in its initial state protecting `value`
    pub fn new(value: T) -> (r: Self)
        ensures
            r.lock_view().is_init(),
            r.lock_view().shr_wf(),
            r.lock_view().shr_count() == 0,
            r.lock_view().shr_available(),
            r.waker_view().is_init(),
            r.value_view() == value,
    {
        let r: Self = ReentrantMutex { raw: raw::ReentrantMutex::new(), value };
        proof {
            r.lock_view().lemma_init_available();
        }
        r
    }
}

impl<L: RawReentrantMutex + crate::Init, W: WakerSet + crate::Init, T: Default> Default for ReentrantMutex<L, W, T> {
    /// A reentrant mutex in its initial state protecting the default value
    fn default() -> (r: Self)
        ensures
            r.lock_view().is_init(),
            r.lock_view().shr_wf(),
            r.lock_view().shr_count() == 0,
            r.lock_view().shr_available(),
            r.waker_view().is_init(),
    {
        let r: Self = ReentrantMutex { raw: raw::ReentrantMutex::new(), value: T::default() };
        proof {
            r.lock_view().lemma_init_available();
        }
        r
    }
}

impl<L: RawReentrantMutex, W: WakerSet, T> ReentrantMutex<L, W, T> {
    /// Attempts to acquire a lock without waiting
    pub fn try_lock(&mut self) -> (r: Option<ShareGuard<L, W, T>>)
        requires
            old(self).lock_view().shr_wf(),
        ensures
            r is Some <==> old(self).lock_view().shr_available(),
            final(self).lock_view().shr_wf(),
            r is Some ==> final(self).lock_view().shr_count() == old(self).lock_view().shr_count() + 1,
            r is None ==> *final(self) == *old(self),
            final(self).waker_view() == old(self).waker_view(),
            final(self).value_view() == old(self).value_view(),
            r is Some ==> crate::reentrant::holder_can_relock(old(self).lock_view(), final(self).lock_view()),
    {
        match self.raw.try_lock() {
            Some(raw) => Some(ShareGuard::from_raw_parts(raw)),
            None => None,
        }
    }

    /// One poll of the future that acquires a lock
    pub fn poll_lock(&mut self, key: Option<W::Index>, cx: &mut core::task::Context) -> (r: LockPoll<ShareGuard<L, W, T>, W::Index>)
        requires
            old(self).lock_view().shr_wf(),
            key matches Some(k) ==> old(self).waker_view().keys().contains(k),
        ensures
            final(self).lock_view().shr_wf(),
            final(self).value_view() == old(self).value_view(),
            final(self).waker_view().woken() == without_key(old(self).waker_view().woken(), key),
            r is Ready <==> old(self).lock_view().shr_available(),
            r is Ready ==> final(self).lock_view().shr_count() == old(self).lock_view().shr_count() + 1
                && final(self).waker_view().keys() == without_key(old(self).waker_view().keys(), key),
            r matches LockPoll::Pending(k) ==> final(self).lock_view() == old(self).lock_view()
                && !without_key(old(self).waker_view().keys(), key).contains(k)
                && final(self).waker_view().keys() == without_key(old(self).waker_view().keys(), key).insert(k),
            r is Ready ==> crate::reentrant::holder_can_relock(old(self).lock_view(), final(self).lock_view()),
    {
        match self.raw.poll_lock(key, cx) {
            LockPoll::Ready(raw) => LockPoll::Ready(ShareGuard::from_raw_parts(raw)),
            LockPoll::Pending(k) => LockPoll::Pending(k),
        }
    }

    /// The protected value, read through a held lock
    pub fn get(&self, guard: &ShareGuard<L, W, T>) -> (r: &T)
        ensures
            *r == self.value_view(),
    {
        &self.value
    }

    /// Releases the lock of `guard` and wakes a waiting task
    pub fn unlock(&mut self, guard: ShareGuard<L, W, T>)
        requires
            old(self).lock_view().shr_wf(),
            old(self).lock_view().shr_count() > 0,
        ensures
            final(self).lock_view().shr_wf(),
            final(self).lock_view().shr_count() == old(self).lock_view().shr_count() - 1,
            final(self).lock_view().shr_count() == 0 ==> final(self).lock_view().shr_available(),
            final(self).waker_view().keys() == old(self).waker_view().keys(),
            woke_one(old(self).waker_view().keys(), old(self).waker_view().woken(), final(self).waker_view().woken()),
            final(self).value_view() == old(self).value_view(),
    {
        self.raw.unlock(guard.into_raw_parts());
    }
}

} // verus!
