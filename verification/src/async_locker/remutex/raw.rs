//! An asynchronous raw reentrant mutex: a lock word and the wakers of the
//! tasks that wait for it
use vstd::prelude::*;
use crate::async_locker::{woke_one, poll_shr, without_key, LockPoll, WakerSet};
use crate::async_locker::share_lock::RawShareGuard;
use crate::remutex::{raw, RawReentrantMutex};
use crate::share_lock::{RawShareGuard as Inner, RawShareLock};

verus! {

/// A reentrant mutex whose waiting tasks register wakers instead of blocking
pub struct ReentrantMutex<L, W> {
    raw: raw::ReentrantMutex<L>,
    waker_set: W,
}

impl<L, W> ReentrantMutex<L, W> {
    /// The lock word
    pub closed spec fn lock_view(&self) -> L {
        self.raw.lock_view()
    }

    /// The wakers of the waiting tasks
    pub closed spec fn waker_view(&self) -> W {
        self.waker_set
    }

    /// A reentrant mutex from a raw reentrant mutex that holds no lock and a
    /// waker set
    pub fn from_raw_parts(raw: raw::ReentrantMutex<L>, waker_set: W) -> (r: Self)
        ensures
            r.lock_view() == raw.lock_view(),
            r.waker_view() == waker_set,
    {
        ReentrantMutex { raw, waker_set }
    }

    /// Decomposes the reentrant mutex into its raw mutex and its waker set
    pub fn into_raw_parts(self) -> (r: (raw::ReentrantMutex<L>, W))
        ensures
            r.0.lock_view() == self.lock_view(),
            r.1 == self.waker_view(),
    {
        (self.raw, self.waker_set)
    }

    /// The underlying raw reentrant mutex
    pub fn inner(&self) -> (r: &raw::ReentrantMutex<L>)
        ensures
            r.lock_view() == self.lock_view(),
    {
        &self.raw
    }
}

impl<L: RawReentrantMutex + crate::Init, W: WakerSet + crate::Init> ReentrantMutex<L, W> {
    /// A reentrant mutex in its initial state
    pub fn new() -> (r: Self)
        ensures
            r.lock_view().is_init(),
            r.lock_view().shr_wf(),
            r.lock_view().shr_count() == 0,
            r.lock_view().shr_available(),
            r.waker_view().is_init(),
    {
        let r: Self = ReentrantMutex { raw: raw::ReentrantMutex::new(), waker_set: W::init() };
        proof {
            r.lock_view().lemma_init_available();
        }
        r
    }
}

impl<L: RawReentrantMutex, W: WakerSet> ReentrantMutex<L, W> {
    /// Attempts to acquire a lock without waiting
    pub fn try_lock(&mut self) -> (r: Option<RawShareGuard<L, W>>)
        requires
            old(self).lock_view().shr_wf(),
        ensures
            r is Some <==> old(self).lock_view().shr_available(),
            final(self).lock_view().shr_wf(),
            r is Some ==> final(self).lock_view().shr_count() == old(self).lock_view().shr_count() + 1,
            r is None ==> *final(self) == *old(self),
            final(self).waker_view() == old(self).waker_view(),
            r is Some ==> crate::reentrant::holder_can_relock(old(self).lock_view(), final(self).lock_view()),
    {
        match self.raw.try_lock() {
            Some(inner) => Some(RawShareGuard::from_raw_parts(inner)),
            None => None,
        }
    }

    /// One poll of the future that acquires a lock
    pub fn poll_lock(&mut self, key: Option<W::Index>, cx: &mut core::task::Context) -> (r: LockPoll<RawShareGuard<L, W>, W::Index>)
        requires
            old(self).lock_view().shr_wf(),
            key matches Some(k) ==> old(self).waker_view().keys().contains(k),
        ensures
            final(self).lock_view().shr_wf(),
            final(self).waker_view().woken() == without_key(old(self).waker_view().woken(), key),
            r is Ready <==> old(self).lock_view().shr_available(),
            r is Ready ==> final(self).lock_view().shr_count() == old(self).lock_view().shr_count() + 1
                && final(self).waker_view().keys() == without_key(old(self).waker_view().keys(), key),
            r matches LockPoll::Pending(k) ==> final(self).lock_view() == old(self).lock_view()
                && !without_key(old(self).waker_view().keys(), key).contains(k)
                && final(self).waker_view().keys() == without_key(old(self).waker_view().keys(), key).insert(k),
            r is Ready ==> crate::reentrant::holder_can_relock(old(self).lock_view(), final(self).lock_view()),
    {
        let ghost before = self.lock_view();
        match poll_shr(self.raw.inner_mut(), &mut self.waker_set, key, cx) {
            LockPoll::Ready(()) => {
                proof {
                    crate::reentrant::lock_then_relock(before, self.lock_view());
                }
                LockPoll::Ready(RawShareGuard::from_raw_parts(Inner::from_raw()))
            },
            LockPoll::Pending(k) => LockPoll::Pending(k),
        }
    }

    /// Releases the lock of `guard` and wakes a waiting task
    pub fn unlock(&mut self, guard: RawShareGuard<L, W>)
        requires
            old(self).lock_view().shr_wf(),
            old(self).lock_view().shr_count() > 0,
        ensures
            final(self).lock_view().shr_wf(),
            final(self).lock_view().shr_count() == old(self).lock_view().shr_count() - 1,
            final(self).lock_view().shr_count() == 0 ==> final(self).lock_view().shr_available(),
            final(self).waker_view().keys() == old(self).waker_view().keys(),
            woke_one(old(self).waker_view().keys(), old(self).waker_view().woken(), final(self).waker_view().woken()),
    {
        guard.unlock(self.raw.inner_mut(), &mut self.waker_set);
    }
}

impl<L: RawReentrantMutex + crate::Init, W: WakerSet + crate::Init> crate::Init for ReentrantMutex<L, W> {
    open spec fn is_init(&self) -> bool {
        self.lock_view().is_init() && self.waker_view().is_init()
    }

    fn init() -> (r: Self) {
        ReentrantMutex::new()
    }
}

} // verus!
