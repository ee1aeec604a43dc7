//! A token standing for one *shr lock* of an asynchronous lock that protects
//! a value
use vstd::prelude::*;
use core::marker::PhantomData;
use crate::async_locker::share_lock::RawShareGuard;
use crate::async_locker::{woke_one, without_key, LockPoll, WakerSet};
use crate::share_lock::RawShareLock;

verus! {

/// A *shr lock* on an asynchronous lock that protects a value of type `T`
pub struct ShareGuard<L, W, T> {
    raw: RawShareGuard<L, W>,
    _value: PhantomData<T>,
}

impl<L, W, T> ShareGuard<L, W, T> {
    /// A guard from its raw guard
    pub fn from_raw_parts(raw: RawShareGuard<L, W>) -> (r: Self) {
        ShareGuard { raw, _value: PhantomData }
    }

    /// Decomposes the guard into its raw guard
    pub fn into_raw_parts(self) -> (r: RawShareGuard<L, W>) {
        self.raw
    }
}

impl<L: RawShareLock, W: WakerSet, T> ShareGuard<L, W, T> {
    /// The first half of a bump: when tasks wait, the *shr lock* on `lock` is
    /// released and one of them is woken; the lock must then be taken back
    /// with [`ShareGuard::poll_relock`]. Returns whether it released the lock.
    pub fn bump_release(&self, lock: &mut L, waker_set: &mut W) -> (r: bool)
        requires
            old(lock).shr_wf(),
            old(lock).shr_count() > 0,
        ensures
            r == (old(waker_set).keys() != Set::<W::Index>::empty()),
            final(lock).shr_wf(),
            r ==> final(lock).shr_count() == old(lock).shr_count() - 1,
            r && final(lock).shr_count() == 0 ==> final(lock).shr_available(),
            !r ==> *final(lock) == *old(lock),
            final(waker_set).keys() == old(waker_set).keys(),
            r ==> woke_one(old(waker_set).keys(), old(waker_set).woken(), final(waker_set).woken()),
            !r ==> final(waker_set).woken() == old(waker_set).woken(),
    {
        self.raw.bump_release(lock, waker_set)
    }

    /// One poll of the second half of a bump: taking a *shr lock* on `lock`
    /// back
    pub fn poll_relock(&self, lock: &mut L, waker_set: &mut W, key: Option<W::Index>, cx: &mut core::task::Context) -> (r: LockPoll<(), W::Index>)
        requires
            old(lock).shr_wf(),
            key matches Some(k) ==> old(waker_set).keys().contains(k),
        ensures
            final(lock).shr_wf(),
            r is Ready <==> old(lock).shr_available(),
            final(waker_set).woken() == without_key(old(waker_set).woken(), key),
            r is Ready ==> final(lock).shr_count() == old(lock).shr_count() + 1
                && final(waker_set).keys() == without_key(old(waker_set).keys(), key),
            r matches LockPoll::Pending(k) ==> *final(lock) == *old(lock)
                && !without_key(old(waker_set).keys(), key).contains(k)
                && final(waker_set).keys() == without_key(old(waker_set).keys(), key).insert(k),
    {
        self.raw.poll_relock(lock, waker_set, key, cx)
    }
}

} // verus!
