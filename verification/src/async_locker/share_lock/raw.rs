//! A token standing for one *shr lock* of an asynchronous lock
use vstd::prelude::*;
use core::marker::PhantomData;
use crate::async_locker::{poll_shr, woke_one, without_key, LockPoll, WakerSet};
use crate::share_lock::{RawShareGuard as Inner, RawShareLock};

verus! {

/// A *shr lock* held on an asynchronous lock whose waiting tasks are kept in
/// a waker set of type `W`
///
/// Like the token of a plain *shr lock*, it borrows nothing: the lock word and
/// the waker set are handed back to release it.
pub struct RawShareGuard<L, W> {
    inner: Inner<L>,
    _waker_set: PhantomData<W>,
}

impl<L, W> RawShareGuard<L, W> {
    /// A guard from a held *shr lock*
    pub fn from_raw_parts(inner: Inner<L>) -> (r: Self) {
        RawShareGuard { inner, _waker_set: PhantomData }
    }

    /// The token of the *shr lock* itself
    pub fn inner(&self) -> (r: &Inner<L>) {
        &self.inner
    }

    /// Decomposes the guard into the token of the *shr lock*
    pub fn into_raw_parts(self) -> (r: Inner<L>) {
        self.inner
    }
}

impl<L: RawShareLock, W: WakerSet> RawShareGuard<L, W> {
    /// Releases the *shr lock* on `lock` and wakes a waiting task
    pub fn unlock(self, lock: &mut L, waker_set: &mut W)
        requires
            old(lock).shr_wf(),
            old(lock).shr_count() > 0,
        ensures
            final(lock).shr_wf(),
            final(lock).shr_count() == old(lock).shr_count() - 1,
            final(lock).shr_count() == 0 ==> final(lock).shr_available(),
            final(waker_set).keys() == old(waker_set).keys(),
            woke_one(old(waker_set).keys(), old(waker_set).woken(), final(waker_set).woken()),
    {
        lock.shr_unlock();
        waker_set.notify_any();
    }

    /// The first half of a bump: when tasks wait, the *shr lock* on `lock` is
    /// released and one of them is woken; the lock must then be taken back
    /// with [`RawShareGuard::poll_relock`]. Returns whether it released the
    /// lock.
    pub fn bump_release(&self, lock: &mut L, waker_set: &mut W) -> (r: bool)
        requires
            old(lock).shr_wf(),
            old(lock).shr_count() > 0,
        ensures
            r == (old(waker_set).keys() != Set::<W::Index>::empty()),
            final(lock).shr_wf(),
            r ==> final(lock).shr_count() == old(lock).shr_count() - 1,
            r && final(lock).shr_count() == 0 ==> final(lock).shr_available(),
            !r ==> *final(lock) == *old(lock),
            final(waker_set).keys() == old(waker_set).keys(),
            r ==> woke_one(old(waker_set).keys(), old(waker_set).woken(), final(waker_set).woken()),
            !r ==> final(waker_set).woken() == old(waker_set).woken(),
    {
        if !waker_set.is_empty() {
            lock.shr_unlock();
            waker_set.notify_any();
            true
        } else {
            false
        }
    }

    /// One poll of the second half of a bump: taking a *shr lock* on `lock`
    /// back
    pub fn poll_relock(&self, lock: &mut L, waker_set: &mut W, key: Option<W::Index>, cx: &mut core::task::Context) -> (r: LockPoll<(), W::Index>)
        requires
            old(lock).shr_wf(),
            key matches Some(k) ==> old(waker_set).keys().contains(k),
        ensures
            final(lock).shr_wf(),
            r is Ready <==> old(lock).shr_available(),
            final(waker_set).woken() == without_key(old(waker_set).woken(), key),
            r is Ready ==> final(lock).shr_count() == old(lock).shr_count() + 1
                && final(waker_set).keys() == without_key(old(waker_set).keys(), key),
            r matches LockPoll::Pending(k) ==> *final(lock) == *old(lock)
                && !without_key(old(waker_set).keys(), key).contains(k)
                && final(waker_set).keys() == without_key(old(waker_set).keys(), key).insert(k),
    {
        poll_shr(lock, waker_set, key, cx)
    }
}

} // verus!
