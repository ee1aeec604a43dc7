//! An asynchronous raw mutex: a lock word and the wakers of the tasks that
//! wait for it
use vstd::prelude::*;
use crate::async_locker::{poll_exc, without_key, LockPoll, WakerSet};
use crate::async_locker::exclusive_lock::RawExclusiveGuard;
use crate::exclusive_lock::{RawExclusiveGuard as Inner, RawExclusiveLock};
use crate::mutex::{raw, RawMutex};

verus! {

/// A mutex whose waiting tasks register wakers instead of blocking
pub struct Mutex<L, W> {
    raw: raw::Mutex<L>,
    waker_set: W,
}

impl<L, W> Mutex<L, W> {
    /// The lock word
    pub closed spec fn lock_view(&self) -> L {
        self.raw.lock_view()
    }

    /// The wakers of the waiting tasks
    pub closed spec fn waker_view(&self) -> W {
        self.waker_set
    }

    /// A mutex from a raw mutex that holds no lock and a waker set
    pub fn from_raw_parts(raw: raw::Mutex<L>, waker_set: W) -> (r: Self)
        ensures
            r.lock_view() == raw.lock_view(),
            r.waker_view() == waker_set,
    {
        Mutex { raw, waker_set }
    }

    /// Decomposes the mutex into its raw mutex and its waker set
    pub fn into_raw_parts(self) -> (r: (raw::Mutex<L>, W))
        ensures
            r.0.lock_view() == self.lock_view(),
            r.1 == self.waker_view(),
    {
        (self.raw, self.waker_set)
    }

    /// The underlying raw mutex
    pub fn raw_mutex(&self) -> (r: &raw::Mutex<L>)
        ensures
            r.lock_view() == self.lock_view(),
    {
        &self.raw
    }
}

impl<L: RawMutex + crate::Init, W: WakerSet + crate::Init> Mutex<L, W> {
    /// A mutex in its initial state
    pub fn new() -> (r: Self)
        ensures
            r.lock_view().is_init(),
            r.lock_view().exc_wf(),
            r.lock_view().exc_count() == 0,
            r.lock_view().exc_available(),
            r.waker_view().is_init(),
    {
        let r: Self = Mutex { raw: raw::Mutex::new(), waker_set: W::init() };
        proof {
            r.lock_view().lemma_init_available();
        }
        r
    }
}

impl<L: RawMutex, W: WakerSet> Mutex<L, W> {
    /// Attempts to acquire the mutex without waiting
    pub fn try_lock(&mut self) -> (r: Option<RawExclusiveGuard<'_, L, W>>)
        requires
            old(self).lock_view().exc_wf(),
        ensures
            r is Some <==> old(self).lock_view().exc_available(),
            r matches Some(g) ==> g.lock_view().exc_wf()
                && g.lock_view().exc_count() == old(self).lock_view().exc_count() + 1
                && g.waker_view() == old(self).waker_view()
                && final(self).lock_view() == *final(g.inner.lock)
                && final(self).waker_view() == *final(g.waker_set),
            r is None ==> *final(self) == *old(self),
    {
        match self.raw.try_lock() {
            Some(inner) => Some(RawExclusiveGuard { inner, waker_set: &mut self.waker_set }),
            None => None,
        }
    }

    /// One poll of the future that acquires the mutex: `key` is the
    /// registration left by the previous poll, if any
    pub fn poll_lock(&mut self, key: Option<W::Index>, cx: &mut core::task::Context) -> (r: LockPoll<RawExclusiveGuard<'_, L, W>, W::Index>)
        requires
            old(self).lock_view().exc_wf(),
            key matches Some(k) ==> old(self).waker_view().keys().contains(k),
        ensures
            r is Ready <==> old(self).lock_view().exc_available(),
            r matches LockPoll::Ready(g) ==> g.lock_view().exc_wf()
                && g.lock_view().exc_count() == old(self).lock_view().exc_count() + 1
                && g.waker_view().keys() == without_key(old(self).waker_view().keys(), key)
                && g.waker_view().woken() == without_key(old(self).waker_view().woken(), key)
                && final(self).lock_view() == *final(g.inner.lock)
                && final(self).waker_view() == *final(g.waker_set),
            r matches LockPoll::Pending(k) ==> final(self).lock_view() == old(self).lock_view()
                && !without_key(old(self).waker_view().keys(), key).contains(k)
                && final(self).waker_view().keys() == without_key(old(self).waker_view().keys(), key).insert(k)
                && final(self).waker_view().woken() == without_key(old(self).waker_view().woken(), key),
    {
        match poll_exc(self.raw.inner_mut(), &mut self.waker_set, key, cx) {
            LockPoll::Ready(()) => {
                let inner = Inner::from_raw(self.raw.inner_mut());
                LockPoll::Ready(RawExclusiveGuard { inner, waker_set: &mut self.waker_set })
            },
            LockPoll::Pending(k) => LockPoll::Pending(k),
        }
    }
}

impl<L: RawMutex + crate::Init, W: WakerSet + crate::Init> crate::Init for Mutex<L, W> {
    open spec fn is_init(&self) -> bool {
        self.lock_view().is_init() && self.waker_view().is_init()
    }

    fn init() -> (r: Self) {
        Mutex::new()
    }
}

} // verus!
