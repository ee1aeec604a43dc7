//! An asynchronous raw rwlock: a lock word and the wakers of the tasks that
//! wait for it
use vstd::prelude::*;
use crate::async_locker::{woke_one, poll_exc, poll_shr, without_key, LockPoll, WakerSet};
use crate::async_locker::exclusive_lock::RawExclusiveGuard;
use crate::async_locker::share_lock::RawShareGuard;
use crate::exclusive_lock::{RawExclusiveGuard as Inner, RawExclusiveLock};
use crate::rwlock::{raw, RawRwLock};
use crate::share_lock::{RawShareGuard as ShrInner, RawShareLock};

verus! {

/// A reader-writer lock whose waiting tasks register wakers instead of
/// blocking
pub struct RwLock<L, W> {
    raw: raw::RwLock<L>,
    waker_set: W,
}

impl<L, W> RwLock<L, W> {
    /// The lock word
    pub closed spec fn lock_view(&self) -> L {
        self.raw.lock_view()
    }

    /// The wakers of the waiting tasks
    pub closed spec fn waker_view(&self) -> W {
        self.waker_set
    }

    /// A rwlock from a raw rwlock that holds no lock and a waker set
    pub fn from_raw_parts(raw: raw::RwLock<L>, waker_set: W) -> (r: Self)
        ensures
            r.lock_view() == raw.lock_view(),
            r.waker_view() == waker_set,
    {
        RwLock { raw, waker_set }
    }

    /// Decomposes the rwlock into its raw rwlock and its waker set
    pub fn into_raw_parts(self) -> (r: (raw::RwLock<L>, W))
        ensures
            r.0.lock_view() == self.lock_view(),
            r.1 == self.waker_view(),
    {
        (self.raw, self.waker_set)
    }

    /// The underlying raw rwlock
    pub fn raw_rwlock(&self) -> (r: &raw::RwLock<L>)
        ensures
            r.lock_view() == self.lock_view(),
    {
        &self.raw
    }
}

impl<L: RawRwLock + crate::Init, W: WakerSet + crate::Init> RwLock<L, W> {
    /// A rwlock in its initial state
    pub fn new() -> (r: Self)
        ensures
            r.lock_view().is_init(),
            r.lock_view().exc_wf(),
            r.lock_view().exc_count() == 0,
            r.lock_view().exc_available(),
            r.lock_view().shr_wf(),
            r.lock_view().shr_count() == 0,
            r.lock_view().shr_available(),
            r.waker_view().is_init(),
    {
        let r: Self = RwLock { raw: raw::RwLock::new(), waker_set: W::init() };
        proof {
            r.lock_view().lemma_init_available();
            r.lock_view().lemma_init_shr_available();
        }
        r
    }
}

impl<L: RawRwLock, W: WakerSet> RwLock<L, W> {
    /// Attempts to acquire exclusive write access without waiting
    pub fn try_write(&mut self) -> (r: Option<RawExclusiveGuard<'_, L, W>>)
        requires
            old(self).lock_view().exc_wf(),
        ensures
            r is Some <==> old(self).lock_view().exc_available(),
            r matches Some(g) ==> g.lock_view().exc_wf()
                && g.lock_view().exc_count() == old(self).lock_view().exc_count() + 1
                && g.waker_view() == old(self).waker_view()
                && final(self).lock_view() == *final(g.inner.lock)
                && final(self).waker_view() == *final(g.waker_set),
            r is None ==> *final(self) == *old(self),
    {
        match self.raw.try_write() {
            Some(inner) => Some(RawExclusiveGuard { inner, waker_set: &mut self.waker_set }),
            None => None,
        }
    }

    /// One poll of the future that acquires exclusive write access
    pub fn poll_write(&mut self, key: Option<W::Index>, cx: &mut core::task::Context) -> (r: LockPoll<RawExclusiveGuard<'_, L, W>, W::Index>)
        requires
            old(self).lock_view().exc_wf(),
            key matches Some(k) ==> old(self).waker_view().keys().contains(k),
        ensures
            r is Ready <==> old(self).lock_view().exc_available(),
            r matches LockPoll::Ready(g) ==> g.lock_view().exc_wf()
                && g.lock_view().exc_count() == old(self).lock_view().exc_count() + 1
                && g.waker_view().keys() == without_key(old(self).waker_view().keys(), key)
                && g.waker_view().woken() == without_key(old(self).waker_view().woken(), key)
                && final(self).lock_view() == *final(g.inner.lock)
                && final(self).waker_view() == *final(g.waker_set),
            r matches LockPoll::Pending(k) ==> final(self).lock_view() == old(self).lock_view()
                && !without_key(old(self).waker_view().keys(), key).contains(k)
                && final(self).waker_view().keys() == without_key(old(self).waker_view().keys(), key).insert(k)
                && final(self).waker_view().woken() == without_key(old(self).waker_view().woken(), key),
    {
        match poll_exc(self.raw.inner_mut(), &mut self.waker_set, key, cx) {
            LockPoll::Ready(()) => {
                let inner = Inner::from_raw(self.raw.inner_mut());
                LockPoll::Ready(RawExclusiveGuard { inner, waker_set: &mut self.waker_set })
            },
            LockPoll::Pending(k) => LockPoll::Pending(k),
        }
    }

    /// Attempts to acquire shared read access without waiting
    pub fn try_read(&mut self) -> (r: Option<RawShareGuard<L, W>>)
        requires
            old(self).lock_view().shr_wf() || old(self).lock_view().exc_wf(),
        ensures
            r is Some <==> old(self).lock_view().shr_available(),
            final(self).lock_view().shr_wf(),
            r is Some ==> final(self).lock_view().shr_count() == old(self).lock_view().shr_count() + 1,
            r is None ==> *final(self) == *old(self),
            final(self).waker_view() == old(self).waker_view(),
            old(self).lock_view().exc_wf() && old(self).lock_view().exc_available() ==> r is Some,
    {
        proof {
            if self.lock_view().exc_wf() {
                self.lock_view().lemma_rw_exclusion();
                self.lock_view().lemma_available_unheld();
            }
        }
        match self.raw.try_read() {
            Some(inner) => Some(RawShareGuard::from_raw_parts(inner)),
            None => None,
        }
    }

    /// One poll of the future that acquires shared read access
    pub fn poll_read(&mut self, key: Option<W::Index>, cx: &mut core::task::Context) -> (r: LockPoll<RawShareGuard<L, W>, W::Index>)
        requires
            old(self).lock_view().shr_wf() || old(self).lock_view().exc_wf(),
            key matches Some(k) ==> old(self).waker_view().keys().contains(k),
        ensures
            final(self).lock_view().shr_wf(),
            final(self).waker_view().woken() == without_key(old(self).waker_view().woken(), key),
            r is Ready <==> old(self).lock_view().shr_available(),
            r is Ready ==> final(self).lock_view().shr_count() == old(self).lock_view().shr_count() + 1
                && final(self).waker_view().keys() == without_key(old(self).waker_view().keys(), key),
            r matches LockPoll::Pending(k) ==> final(self).lock_view() == old(self).lock_view()
                && !without_key(old(self).waker_view().keys(), key).contains(k)
                && final(self).waker_view().keys() == without_key(old(self).waker_view().keys(), key).insert(k),
            old(self).lock_view().exc_wf() && old(self).lock_view().exc_available() ==> r is Ready,
    {
        proof {
            if self.lock_view().exc_wf() {
                self.lock_view().lemma_rw_exclusion();
                self.lock_view().lemma_available_unheld();
            }
        }
        match poll_shr(self.raw.inner_mut(), &mut self.waker_set, key, cx) {
            LockPoll::Ready(()) => LockPoll::Ready(RawShareGuard::from_raw_parts(ShrInner::from_raw())),
            LockPoll::Pending(k) => LockPoll::Pending(k),
        }
    }

    /// Releases the shared read access of `guard` and wakes a waiting task
    pub fn unlock_read(&mut self, guard: RawShareGuard<L, W>)
        requires
            old(self).lock_view().shr_wf(),
            old(self).lock_view().shr_count() > 0,
        ensures
            final(self).lock_view().shr_wf(),
            final(self).lock_view().shr_count() == old(self).lock_view().shr_count() - 1,
            final(self).lock_view().shr_count() == 0 ==> final(self).lock_view().shr_available(),
            final(self).waker_view().keys() == old(self).waker_view().keys(),
            woke_one(old(self).waker_view().keys(), old(self).waker_view().woken(), final(self).waker_view().woken()),
    {
        guard.unlock(self.raw.inner_mut(), &mut self.waker_set);
    }
}

impl<L: RawRwLock + crate::Init, W: WakerSet + crate::Init> crate::Init for RwLock<L, W> {
    open spec fn is_init(&self) -> bool {
        self.lock_view().is_init() && self.waker_view().is_init()
    }

    fn init() -> (r: Self) {
        RwLock::new()
    }
}

} // verus!
