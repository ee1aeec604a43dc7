//! a raw reentrant mutex
use vstd::prelude::*;
use crate::reentrant::RawReentrantMutex;
use crate::share_lock::{RawShareGuard, RawShareLockTimed};

verus! {

/// A reentrant mutex that protects no data of its own
///
/// Each lock can only be used in a single thread, and the reentrant mutex can
/// be locked any number of times within that thread.
pub struct ReentrantMutex<L> {
    lock: L,
}

impl<L> ReentrantMutex<L> {
    /// The underlying lock word
    pub closed spec fn lock_view(&self) -> L {
        self.lock
    }

    /// Create a raw reentrant mutex from a lock that holds no lock
    pub fn from_raw(lock: L) -> (r: Self)
        ensures
            r.lock_view() == lock,
    {
        ReentrantMutex { lock }
    }

    /// Consumes this reentrant mutex, returning the underlying lock
    pub fn into_inner(self) -> (r: L)
        ensures
            r == self.lock_view(),
    {
        self.lock
    }

    /// the underlying lock
    pub fn inner(&self) -> (r: &L)
        ensures
            *r == self.lock_view(),
    {
        &self.lock
    }

    /// the underlying lock, to drive it through its operations directly
    pub fn inner_mut(&mut self) -> (r: &mut L)
        ensures
            *r == old(self).lock_view(),
            final(self).lock_view() == *final(r),
    {
        &mut self.lock
    }
}

impl<L: RawReentrantMutex + crate::Init> ReentrantMutex<L> {
    /// Create a new raw reentrant mutex
    pub fn new() -> (r: Self)
        ensures
            r.lock_view().is_init(),
            r.lock_view().shr_wf(),
            r.lock_view().shr_count() == 0,
            r.lock_view().shr_available(),
    {
        let r: Self = ReentrantMutex { lock: L::init() };
        proof {
            r.lock_view().lemma_init_available();
        }
        r
    }
}

impl<L: RawReentrantMutex> ReentrantMutex<L> {
    /// Acquires a lock; if the current thread already holds one this cannot
    /// block and always succeeds
    pub fn lock(&mut self) -> (r: RawShareGuard<L>)
        requires
            old(self).lock_view().shr_wf(),
            old(self).lock_view().shr_available(),
        ensures
            final(self).lock_view().shr_wf(),
            final(self).lock_view().shr_count() == old(self).lock_view().shr_count() + 1,
            crate::reentrant::holder_can_relock(old(self).lock_view(), final(self).lock_view()),
    {
        let ghost before = self.lock;
        self.lock.shr_lock();
        proof {
            crate::reentrant::lock_then_relock(before, self.lock);
        }
        RawShareGuard::from_raw()
    }

    /// Attempts to acquire this lock
    pub fn try_lock(&mut self) -> (r: Option<RawShareGuard<L>>)
        requires
            old(self).lock_view().shr_wf(),
        ensures
            final(self).lock_view().shr_wf(),
            r is Some <==> old(self).lock_view().shr_available(),
            r is Some ==> final(self).lock_view().shr_count() == old(self).lock_view().shr_count() + 1,
            r is None ==> *final(self) == *old(self),
            r is Some ==> crate::reentrant::holder_can_relock(old(self).lock_view(), final(self).lock_view()),
    {
        let ghost before = self.lock;
        if self.lock.shr_try_lock() {
            proof {
                crate::reentrant::lock_then_relock(before, self.lock);
            }
            Some(RawShareGuard::from_raw())
        } else {
            None
        }
    }

    /// Releases the lock that `guard` stands for
    pub fn unlock(&mut self, guard: RawShareGuard<L>)
        requires
            old(self).lock_view().shr_wf(),
            old(self).lock_view().shr_count() > 0,
        ensures
            final(self).lock_view().shr_wf(),
            final(self).lock_view().shr_count() == old(self).lock_view().shr_count() - 1,
            final(self).lock_view().shr_count() == 0 ==> final(self).lock_view().shr_available(),
    {
        self.lock.shr_unlock();
    }
}

impl<L: RawReentrantMutex + RawShareLockTimed> ReentrantMutex<L> {
    /// Attempts to acquire this lock until a timeout is reached.
    pub fn try_lock_until(&mut self, instant: L::Instant) -> (r: Option<RawShareGuard<L>>)
        requires
            old(self).lock_view().shr_wf(),
        ensures
            final(self).lock_view().shr_wf(),
            r is Some <==> old(self).lock_view().shr_available(),
            r is Some ==> final(self).lock_view().shr_count() == old(self).lock_view().shr_count() + 1,
            r is None ==> final(self).lock_view().shr_count() == old(self).lock_view().shr_count(),
            r is Some ==> crate::reentrant::holder_can_relock(old(self).lock_view(), final(self).lock_view()),
    {
        let ghost before = self.lock;
        if self.lock.shr_try_lock_until(instant) {
            proof {
                crate::reentrant::lock_then_relock(before, self.lock);
            }
            Some(RawShareGuard::from_raw())
        } else {
            None
        }
    }

    /// Attempts to acquire this lock within the given duration.
    pub fn try_lock_for(&mut self, duration: L::Duration) -> (r: Option<RawShareGuard<L>>)
        requires
            old(self).lock_view().shr_wf(),
        ensures
            final(self).lock_view().shr_wf(),
            r is Some <==> old(self).lock_view().shr_available(),
            r is Some ==> final(self).lock_view().shr_count() == old(self).lock_view().shr_count() + 1,
            r is None ==> final(self).lock_view().shr_count() == old(self).lock_view().shr_count(),
            r is Some ==> crate::reentrant::holder_can_relock(old(self).lock_view(), final(self).lock_view()),
    {
        let ghost before = self.lock;
        if self.lock.shr_try_lock_for(duration) {
            proof {
                crate::reentrant::lock_then_relock(before, self.lock);
            }
            Some(RawShareGuard::from_raw())
        } else {
            None
        }
    }
}

impl<L: RawReentrantMutex + crate::Init> Default for ReentrantMutex<L> {
    /// A raw reentrant mutex in its initial state
    fn default() -> (r: Self)
        ensures
            r.lock_view().is_init(),
            r.lock_view().shr_wf(),
            r.lock_view().shr_count() == 0,
            r.lock_view().shr_available(),
    {
        let r: Self = Self::new();
        proof {
            r.lock_view().lemma_init_available();
        }
        r
    }
}

} // verus!
