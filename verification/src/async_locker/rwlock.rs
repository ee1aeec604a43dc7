//! An asynchronous reader-writer lock that protects a value
use vstd::prelude::*;
use crate::async_locker::{woke_one, without_key, LockPoll, WakerSet};
use crate::async_locker::exclusive_lock::ExclusiveGuard;
use crate::async_locker::share_lock::ShareGuard;
use crate::exclusive_lock::RawExclusiveLock;
use crate::rwlock::RawRwLock;
use crate::share_lock::RawShareLock;

pub mod raw;

verus! {

/// A reader-writer lock whose waiting tasks register wakers instead of
/// blocking, and that protects a value
pub struct RwLock<L, W, T> {
    raw: raw::RwLock<L, W>,
    value: T,
}

impl<L, W, T> RwLock<L, W, T> {
    /// The lock word
    pub closed spec fn lock_view(&self) -> L {
        self.raw.lock_view()
    }

    /// The wakers of the waiting tasks
    pub closed spec fn waker_view(&self) -> W {
        self.raw.waker_view()
    }

    /// The protected value
    pub closed spec fn value_view(&self) -> T {
        self.value
    }

    /// A rwlock from a raw rwlock that holds no lock and a value
    pub fn from_raw_parts(raw: raw::RwLock<L, W>, value: T) -> (r: Self)
        ensures
            r.lock_view() == raw.lock_view(),
            r.waker_view() == raw.waker_view(),
            r.value_view() == value,
    {
        RwLock { raw, value }
    }

    /// Decomposes the rwlock into its raw rwlock and its value
    pub fn into_raw_parts(self) -> (r: (raw::RwLock<L, W>, T))
        ensures
            r.0.lock_view() == self.lock_view(),
            r.0.waker_view() == self.waker_view(),
            r.1 == self.value_view(),
    {
        (self.raw, self.value)
    }

    /// Consumes the rwlock, returning the protected value
    pub fn into_inner(self) -> (r: T)
        ensures
            r == self.value_view(),
    {
        self.value
    }

    /// The underlying raw rwlock
    pub fn raw(&self) -> (r: &raw::RwLock<L, W>)
        ensures
            r.lock_view() == self.lock_view(),
            r.waker_view() == self.waker_view(),
    {
        &self.raw
    }

    /// The protected value, reached without locking through the mutable
    /// borrow of the rwlock
    pub fn get_mut(&mut self) -> (r: &mut T)
        ensures
            *r == old(self).value_view(),
            final(self).value_view() == *final(r),
            final(self).lock_view() == old(self).lock_view(),
            final(self).waker_view() == old(self).waker_view(),
    {
        &mut self.value
    }
}

impl<L: RawRwLock + crate::Init, W: WakerSet + crate::Init, T> RwLock<L, W, T> {
    /// A rwlock in its initial state protecting `value`
    pub fn new(value: T) -> (r: Self)
        ensures
            r.lock_view().is_init(),
            r.lock_view().exc_wf(),
            r.lock_view().exc_count() == 0,
            r.lock_view().exc_available(),
            r.lock_view().shr_wf(),
            r.lock_view().shr_count() == 0,
            r.lock_view().shr_available(),
            r.waker_view().is_init(),
            r.value_view() == value,
    {
        let r: Self = RwLock { raw: raw::RwLock::new(), value };
        proof {
            r.lock_view().lemma_init_available();
            r.lock_view().lemma_init_shr_available();
        }
        r
    }
}

impl<L: RawRwLock + crate::Init, W: WakerSet + crate::Init, T: Default> Default for RwLock<L, W, T> {
    /// A rwlock in its initial state protecting the default value
    fn default() -> (r: Self)
        ensures
            r.lock_view().is_init(),
            r.lock_view().exc_wf(),
            r.lock_view().exc_count() == 0,
            r.lock_view().exc_available(),
            r.lock_view().shr_wf(),
            r.lock_view().shr_count() == 0,
            r.lock_view().shr_available(),
            r.waker_view().is_init(),
    {
        let r: Self = RwLock { raw: raw::RwLock::new(), value: T::default() };
        proof {
            r.lock_view().lemma_init_available();
            r.lock_view().lemma_init_shr_available();
        }
        r
    }
}

impl<L: RawRwLock, W: WakerSet, T> RwLock<L, W, T> {
    /// Attempts to acquire exclusive write access without waiting
    pub fn try_write(&mut self) -> (r: Option<ExclusiveGuard<'_, L, W, T>>)
        requires
            old(self).lock_view().exc_wf(),
        ensures
            r is Some <==> old(self).lock_view().exc_available(),
            r matches Some(g) ==> g.raw.lock_view().exc_wf()
                && g.raw.lock_view().exc_count() == old(self).lock_view().exc_count() + 1
                && g.raw.waker_view() == old(self).waker_view()
                && g.value_view() == old(self).value_view()
                && final(self).lock_view() == *final(g.raw.inner.lock)
                && final(self).waker_view() == *final(g.raw.waker_set)
                && final(self).value_view() == *final(g.value),
            r is None ==> *final(self) == *old(self),
    {
        match self.raw.try_write() {
            Some(raw) => Some(ExclusiveGuard { raw, value: &mut self.value }),
            None => None,
        }
    }

    /// One poll of the future that acquires exclusive write access
    pub fn poll_write(&mut self, key: Option<W::Index>, cx: &mut core::task::Context) -> (r: LockPoll<ExclusiveGuard<'_, L, W, T>, W::Index>)
        requires
            old(self).lock_view().exc_wf(),
            key matches Some(k) ==> old(self).waker_view().keys().contains(k),
        ensures
            r is Ready <==> old(self).lock_view().exc_available(),
            r matches LockPoll::Ready(g) ==> g.raw.lock_view().exc_wf()
                && g.raw.lock_view().exc_count() == old(self).lock_view().exc_count() + 1
                && g.raw.waker_view().keys() == without_key(old(self).waker_view().keys(), key)
                && g.raw.waker_view().woken() == without_key(old(self).waker_view().woken(), key)
                && g.value_view() == old(self).value_view()
                && final(self).lock_view() == *final(g.raw.inner.lock)
                && final(self).waker_view() == *final(g.raw.waker_set)
                && final(self).value_view() == *final(g.value),
            r matches LockPoll::Pending(k) ==> final(self).lock_view() == old(self).lock_view()
                && !without_key(old(self).waker_view().keys(), key).contains(k)
                && final(self).waker_view().keys() == without_key(old(self).waker_view().keys(), key).insert(k)
                && final(self).waker_view().woken() == without_key(old(self).waker_view().woken(), key)
                && final(self).value_view() == old(self).value_view(),
    {
        match self.raw.poll_write(key, cx) {
            LockPoll::Ready(raw) => LockPoll::Ready(ExclusiveGuard { raw, value: &mut self.value }),
            LockPoll::Pending(k) => LockPoll::Pending(k),
        }
    }

    /// Attempts to acquire shared read access without waiting
    pub fn try_read(&mut self) -> (r: Option<ShareGuard<L, W, T>>)
        requires
            old(self).lock_view().shr_wf() || old(self).lock_view().exc_wf(),
        ensures
            r is Some <==> old(self).lock_view().shr_available(),
            final(self).lock_view().shr_wf(),
            r is Some ==> final(self).lock_view().shr_count() == old(self).lock_view().shr_count() + 1,
            r is None ==> *final(self) == *old(self),
            final(self).waker_view() == old(self).waker_view(),
            final(self).value_view() == old(self).value_view(),
            old(self).lock_view().exc_wf() && old(self).lock_view().exc_available() ==> r is Some,
    {
        match self.raw.try_read() {
            Some(raw) => Some(ShareGuard::from_raw_parts(raw)),
            None => None,
        }
    }

    /// One poll of the future that acquires shared read access
    pub fn poll_read(&mut self, key: Option<W::Index>, cx: &mut core::task::Context) -> (r: LockPoll<ShareGuard<L, W, T>, W::Index>)
        requires
            old(self).lock_view().shr_wf() || old(self).lock_view().exc_wf(),
            key matches Some(k) ==> old(self).waker_view().keys().contains(k),
        ensures
            final(self).lock_view().shr_wf(),
            final(self).value_view() == old(self).value_view(),
            final(self).waker_view().woken() == without_key(old(self).waker_view().woken(), key),
            r is Ready <==> old(self).lock_view().shr_available(),
            r is Ready ==> final(self).lock_view().shr_count() == old(self).lock_view().shr_count() + 1
                && final(self).waker_view().keys() == without_key(old(self).waker_view().keys(), key),
            r matches LockPoll::Pending(k) ==> final(self).lock_view() == old(self).lock_view()
                && !without_key(old(self).waker_view().keys(), key).contains(k)
                && final(self).waker_view().keys() == without_key(old(self).waker_view().keys(), key).insert(k),
            old(self).lock_view().exc_wf() && old(self).lock_view().exc_available() ==> r is Ready,
    {
        match self.raw.poll_read(key, cx) {
            LockPoll::Ready(raw) => LockPoll::Ready(ShareGuard::from_raw_parts(raw)),
            LockPoll::Pending(k) => LockPoll::Pending(k),
        }
    }

    /// The protected value, read through held shared access
    pub fn get(&self, guard: &ShareGuard<L, W, T>) -> (r: &T)
        ensures
            *r == self.value_view(),
    {
        &self.value
    }

    /// Releases the shared read access of `guard` and wakes a waiting task
    pub fn unlock_read(&mut self, guard: ShareGuard<L, W, T>)
        requires
            old(self).lock_view().shr_wf(),
            old(self).lock_view().shr_count() > 0,
        ensures
            final(self).lock_view().shr_wf(),
            final(self).lock_view().shr_count() == old(self).lock_view().shr_count() - 1,
            final(self).lock_view().shr_count() == 0 ==> final(self).lock_view().shr_available(),
            final(self).waker_view().keys() == old(self).waker_view().keys(),
            woke_one(old(self).waker_view().keys(), old(self).waker_view().woken(), final(self).waker_view().woken()),
            final(self).value_view() == old(self).value_view(),
    {
        self.raw.unlock_read(guard.into_raw_parts());
    }
}

} // verus!
