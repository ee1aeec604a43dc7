//! A raw guard that owns one *exc lock* of an asynchronous lock
use vstd::prelude::*;
use crate::async_locker::{poll_exc, woke_one, without_key, LockPoll, WakerSet};
use crate::exclusive_lock::{RawExclusiveGuard as Inner, RawExclusiveLock, RawExclusiveLockDowngrade};
use crate::share_lock::RawShareLock;

verus! {

/// An *exc lock* of an asynchronous lock, together with the set of wakers of
/// the tasks that wait for the lock
pub struct RawExclusiveGuard<'a, L, W> {
    /// The guard of the lock itself
    pub inner: Inner<'a, L>,
    /// The wakers of the waiting tasks
    pub waker_set: &'a mut W,
}

impl<'a, L: RawExclusiveLock, W: WakerSet> RawExclusiveGuard<'a, L, W> {
    /// The lock word as it stands now
    pub open spec fn lock_view(&self) -> L {
        self.inner.lock_view()
    }

    /// The waker set as it stands now
    pub open spec fn waker_view(&self) -> W {
        *self.waker_set
    }

    /// A guard from a held *exc lock* and the waker set of its lock
    pub fn from_raw_parts(inner: Inner<'a, L>, waker_set: &'a mut W) -> (r: Self)
        ensures
            r.inner == inner,
            r.waker_view() == *old(waker_set),
            *final(r.waker_set) == *final(waker_set),
    {
        RawExclusiveGuard { inner, waker_set }
    }

    /// The guard of the lock itself
    pub fn inner(&self) -> (r: &Inner<'a, L>)
        ensures
            *r == self.inner,
    {
        &self.inner
    }

    /// Decomposes the guard into the guard of the lock and the waker set
    pub fn into_raw_parts(self) -> (r: (Inner<'a, L>, &'a mut W))
        ensures
            r.0 == self.inner,
            *r.1 == self.waker_view(),
            *final(r.1) == *final(self.waker_set),
    {
        (self.inner, self.waker_set)
    }

    /// Releases the *exc lock* and wakes a waiting task
    pub fn unlock(self)
        requires
            self.lock_view().exc_wf(),
            self.lock_view().exc_count() > 0,
        ensures
            final(self.inner.lock).exc_wf(),
            final(self.inner.lock).exc_count() == self.lock_view().exc_count() - 1,
            final(self.inner.lock).exc_count() == 0 ==> final(self.inner.lock).exc_available(),
            final(self.waker_set).keys() == self.waker_view().keys(),
            woke_one(self.waker_view().keys(), self.waker_view().woken(), final(self.waker_set).woken()),
    {
        self.inner.lock.exc_unlock();
        self.waker_set.notify_any();
    }

    /// The first half of a bump: when tasks wait, the *exc lock* is released
    /// and one of them is woken; the lock must then be taken back with
    /// [`RawExclusiveGuard::poll_relock`]. Returns whether it released the lock.
    pub fn bump_release(&mut self) -> (r: bool)
        requires
            old(self).lock_view().exc_wf(),
            old(self).lock_view().exc_count() == 1,
        ensures
            r == (old(self).waker_view().keys() != Set::<W::Index>::empty()),
            final(self).lock_view().exc_wf(),
            r ==> final(self).lock_view().exc_count() == 0 && final(self).lock_view().exc_available(),
            !r ==> final(self).lock_view() == old(self).lock_view(),
            final(self).waker_view().keys() == old(self).waker_view().keys(),
            r ==> woke_one(old(self).waker_view().keys(), old(self).waker_view().woken(), final(self).waker_view().woken()),
            !r ==> final(self).waker_view().woken() == old(self).waker_view().woken(),
            *final(final(self).inner.lock) == *final(old(self).inner.lock),
            *final(final(self).waker_set) == *final(old(self).waker_set),
    {
        if !self.waker_set.is_empty() {
            self.inner.lock.exc_unlock();
            self.waker_set.notify_any();
            true
        } else {
            false
        }
    }

    /// One poll of the second half of a bump: taking the released *exc lock*
    /// back
    pub fn poll_relock(&mut self, key: Option<W::Index>, cx: &mut core::task::Context) -> (r: LockPoll<(), W::Index>)
        requires
            old(self).lock_view().exc_wf(),
            key matches Some(k) ==> old(self).waker_view().keys().contains(k),
        ensures
            final(self).lock_view().exc_wf(),
            r is Ready <==> old(self).lock_view().exc_available(),
            r is Ready ==> final(self).lock_view().exc_count() == old(self).lock_view().exc_count() + 1
                && final(self).waker_view().keys() == without_key(old(self).waker_view().keys(), key),
            r matches LockPoll::Pending(k) ==> final(self).lock_view() == old(self).lock_view()
                && !without_key(old(self).waker_view().keys(), key).contains(k)
                && final(self).waker_view().keys() == without_key(old(self).waker_view().keys(), key).insert(k),
            *final(final(self).inner.lock) == *final(old(self).inner.lock),
            *final(final(self).waker_set) == *final(old(self).waker_set),
            final(self).waker_view().woken() == without_key(old(self).waker_view().woken(), key),
    {
        poll_exc(&mut *self.inner.lock, &mut *self.waker_set, key, cx)
    }
}

impl<'a, L: RawExclusiveLockDowngrade, W: WakerSet> RawExclusiveGuard<'a, L, W> {
    /// Atomically downgrades the guard's *exc lock* to a *shr lock*
    pub fn downgrade(self) -> (r: crate::async_locker::share_lock::RawShareGuard<L, W>)
        requires
            self.lock_view().exc_wf(),
            self.lock_view().shr_wf(),
            self.lock_view().exc_count() > 0,
        ensures
            final(self.inner.lock).exc_wf(),
            final(self.inner.lock).shr_wf(),
            final(self.inner.lock).exc_count() == self.lock_view().exc_count() - 1,
            final(self.inner.lock).shr_count() == self.lock_view().shr_count() + 1,
            *final(self.waker_set) == self.waker_view(),
    {
        crate::async_locker::share_lock::RawShareGuard::from_raw_parts(self.inner.downgrade())
    }
}

} // verus!
