//! A raw rwlock: a lock word with no data attached
use vstd::prelude::*;
use crate::exclusive_lock::{RawExclusiveGuard, RawExclusiveLock, RawExclusiveLockTimed};
use crate::share_lock::{RawShareGuard, RawShareLock, RawShareLockTimed};
use crate::rwlock::RawRwLock;

verus! {

/// A reader-writer lock that protects no data of its own
pub struct RwLock<L> {
    lock: L,
}

impl<L> RwLock<L> {
    /// The underlying lock word
    pub closed spec fn lock_view(&self) -> L {
        self.lock
    }

    /// Create a new raw rwlock from a lock that holds no lock
    pub fn from_raw(lock: L) -> (r: Self)
        ensures
            r.lock_view() == lock,
    {
        RwLock { lock }
    }

    /// consume the rwlock and return the underlying lock
    pub fn into_inner(self) -> (r: L)
        ensures
            r == self.lock_view(),
    {
        self.lock
    }

    /// the underlying lock
    pub fn inner(&self) -> (r: &L)
        ensures
            *r == self.lock_view(),
    {
        &self.lock
    }

    /// the underlying lock, to drive it through its operations directly
    pub fn inner_mut(&mut self) -> (r: &mut L)
        ensures
            *r == old(self).lock_view(),
            final(self).lock_view() == *final(r),
    {
        &mut self.lock
    }
}

impl<L: RawRwLock + crate::Init> RwLock<L> {
    /// Create a new raw rwlock
    pub fn new() -> (r: Self)
        ensures
            r.lock_view().is_init(),
            r.lock_view().exc_wf(),
            r.lock_view().exc_count() == 0,
            r.lock_view().exc_available(),
            r.lock_view().shr_wf(),
            r.lock_view().shr_count() == 0,
            r.lock_view().shr_available(),
    {
        let r: Self = RwLock { lock: L::init() };
        proof {
            r.lock_view().lemma_init_available();
            r.lock_view().lemma_init_shr_available();
        }
        r
    }
}

impl<L: RawRwLock> RwLock<L> {
    /// Acquires exclusive write access, which must be available
    pub fn write(&mut self) -> (r: RawExclusiveGuard<'_, L>)
        requires
            old(self).lock_view().exc_wf(),
            old(self).lock_view().exc_available(),
        ensures
            r.lock_view().exc_wf(),
            r.lock_view().exc_count() == old(self).lock_view().exc_count() + 1,
            final(self).lock_view() == *final(r.lock),
    {
        RawExclusiveGuard::new(&mut self.lock)
    }

    /// Attempts to acquire exclusive write access
    pub fn try_write(&mut self) -> (r: Option<RawExclusiveGuard<'_, L>>)
        requires
            old(self).lock_view().exc_wf(),
        ensures
            r is Some <==> old(self).lock_view().exc_available(),
            r matches Some(g) ==> g.lock_view().exc_wf() && g.lock_view().exc_count() == old(self).lock_view().exc_count() + 1
                && final(self).lock_view() == *final(g.lock),
            r is None ==> *final(self) == *old(self),
    {
        RawExclusiveGuard::try_new(&mut self.lock)
    }

    /// Acquires shared read access, which must be available
    pub fn read(&mut self) -> (r: RawShareGuard<L>)
        requires
            crate::rwlock::readable_now(old(self).lock_view()),
        ensures
            final(self).lock_view().shr_wf(),
            final(self).lock_view().shr_count() == old(self).lock_view().shr_count() + 1,
    {
        proof {
            if self.lock.exc_wf() {
                self.lock.lemma_rw_exclusion();
                self.lock.lemma_available_unheld();
            }
        }
        self.lock.shr_lock();
        RawShareGuard::from_raw()
    }

    /// Attempts to acquire shared read access
    pub fn try_read(&mut self) -> (r: Option<RawShareGuard<L>>)
        requires
            old(self).lock_view().shr_wf() || old(self).lock_view().exc_wf(),
        ensures
            r is Some <==> old(self).lock_view().shr_available(),
            final(self).lock_view().shr_wf(),
            r is Some ==> final(self).lock_view().shr_count() == old(self).lock_view().shr_count() + 1,
            r is None ==> *final(self) == *old(self),
            old(self).lock_view().exc_wf() && old(self).lock_view().exc_available() ==> r is Some,
    {
        proof {
            if self.lock.exc_wf() {
                self.lock.lemma_rw_exclusion();
                self.lock.lemma_available_unheld();
            }
        }
        if self.lock.shr_try_lock() {
            Some(RawShareGuard::from_raw())
        } else {
            None
        }
    }

    /// Releases the shared read access that `guard` stands for
    pub fn unlock_read(&mut self, guard: RawShareGuard<L>)
        requires
            old(self).lock_view().shr_wf(),
            old(self).lock_view().shr_count() > 0,
        ensures
            final(self).lock_view().shr_wf(),
            final(self).lock_view().shr_count() == old(self).lock_view().shr_count() - 1,
            final(self).lock_view().shr_count() == 0 ==> final(self).lock_view().shr_available(),
    {
        self.lock.shr_unlock();
    }
}

impl<L: RawRwLock + RawExclusiveLockTimed + RawShareLockTimed> RwLock<L> {
    /// Attempts to acquire exclusive write access until a timeout is reached
    pub fn try_write_until(&mut self, instant: L::Instant) -> (r: Option<RawExclusiveGuard<'_, L>>)
        requires
            old(self).lock_view().exc_wf(),
        ensures
            r is Some <==> old(self).lock_view().exc_available(),
            r matches Some(g) ==> g.lock_view().exc_wf() && g.lock_view().exc_count() == old(self).lock_view().exc_count() + 1
                && final(self).lock_view() == *final(g.lock),
            r is None ==> final(self).lock_view().exc_wf()
                && final(self).lock_view().exc_count() == old(self).lock_view().exc_count(),
    {
        if self.lock.exc_try_lock_until(instant) {
            Some(RawExclusiveGuard::from_raw(&mut self.lock))
        } else {
            None
        }
    }

    /// Attempts to acquire exclusive write access within the given duration
    pub fn try_write_for(&mut self, duration: L::Duration) -> (r: Option<RawExclusiveGuard<'_, L>>)
        requires
            old(self).lock_view().exc_wf(),
        ensures
            r is Some <==> old(self).lock_view().exc_available(),
            r matches Some(g) ==> g.lock_view().exc_wf() && g.lock_view().exc_count() == old(self).lock_view().exc_count() + 1
                && final(self).lock_view() == *final(g.lock),
            r is None ==> final(self).lock_view().exc_wf()
                && final(self).lock_view().exc_count() == old(self).lock_view().exc_count(),
    {
        if self.lock.exc_try_lock_for(duration) {
            Some(RawExclusiveGuard::from_raw(&mut self.lock))
        } else {
            None
        }
    }

    /// Attempts to acquire shared read access until a timeout is reached
    pub fn try_read_until(&mut self, instant: L::Instant) -> (r: Option<RawShareGuard<L>>)
        requires
            old(self).lock_view().shr_wf(),
        ensures
            r is Some <==> old(self).lock_view().shr_available(),
            final(self).lock_view().shr_wf(),
            r is Some ==> final(self).lock_view().shr_count() == old(self).lock_view().shr_count() + 1,
            r is None ==> final(self).lock_view().shr_count() == old(self).lock_view().shr_count(),
    {
        if self.lock.shr_try_lock_until(instant) {
            Some(RawShareGuard::from_raw())
        } else {
            None
        }
    }

    /// Attempts to acquire shared read access within the given duration
    pub fn try_read_for(&mut self, duration: L::Duration) -> (r: Option<RawShareGuard<L>>)
        requires
            old(self).lock_view().shr_wf(),
        ensures
            r is Some <==> old(self).lock_view().shr_available(),
            final(self).lock_view().shr_wf(),
            r is Some ==> final(self).lock_view().shr_count() == old(self).lock_view().shr_count() + 1,
            r is None ==> final(self).lock_view().shr_count() == old(self).lock_view().shr_count(),
    {
        if self.lock.shr_try_lock_for(duration) {
            Some(RawShareGuard::from_raw())
        } else {
            None
        }
    }
}

} // verus!
