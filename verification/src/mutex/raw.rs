//! A raw mutex: a lock word with no data attached
use vstd::prelude::*;
use crate::exclusive_lock::{RawExclusiveGuard, RawExclusiveLock, RawExclusiveLockTimed};
use crate::mutex::RawMutex;

verus! {

/// A mutual exclusion primitive that protects no data of its own
pub struct Mutex<L> {
    lock: L,
}

impl<L> Mutex<L> {
    /// The underlying lock word
    pub closed spec fn lock_view(&self) -> L {
        self.lock
    }

    /// Create a new raw mutex from a lock that holds no lock
    pub fn from_raw(lock: L) -> (r: Self)
        ensures
            r.lock_view() == lock,
    {
        Mutex { lock }
    }

    /// consume the mutex and return the underlying lock
    pub fn into_inner(self) -> (r: L)
        ensures
            r == self.lock_view(),
    {
        self.lock
    }

    /// the underlying lock
    pub fn inner(&self) -> (r: &L)
        ensures
            *r == self.lock_view(),
    {
        &self.lock
    }

    /// the underlying lock, to drive it through its operations directly
    pub fn inner_mut(&mut self) -> (r: &mut L)
        ensures
            *r == old(self).lock_view(),
            final(self).lock_view() == *final(r),
    {
        &mut self.lock
    }
}

impl<L: RawMutex + crate::Init> Mutex<L> {
    /// Create a new raw mutex
    pub fn new() -> (r: Self)
        ensures
            r.lock_view().is_init(),
            r.lock_view().exc_wf(),
            r.lock_view().exc_count() == 0,
            r.lock_view().exc_available(),
    {
        let r: Self = Mutex { lock: L::init() };
        proof {
            r.lock_view().lemma_init_available();
        }
        r
    }
}

impl<L: RawMutex> Mutex<L> {
    /// Acquires the mutex, which must be available: no other thread can
    /// release it while this one waits.
    pub fn lock(&mut self) -> (r: RawExclusiveGuard<'_, L>)
        requires
            old(self).lock_view().exc_wf(),
            old(self).lock_view().exc_available(),
        ensures
            r.lock_view().exc_wf(),
            r.lock_view().exc_count() == old(self).lock_view().exc_count() + 1,
            final(self).lock_view() == *final(r.lock),
    {
        RawExclusiveGuard::new(&mut self.lock)
    }

    /// Attempts to acquire this lock.
    ///
    /// If the lock could not be acquired at this time, then `None` is returned
    /// and the lock is left as it was.
    pub fn try_lock(&mut self) -> (r: Option<RawExclusiveGuard<'_, L>>)
        requires
            old(self).lock_view().exc_wf(),
        ensures
            r is Some <==> old(self).lock_view().exc_available(),
            r matches Some(g) ==> g.lock_view().exc_wf() && g.lock_view().exc_count() == old(self).lock_view().exc_count() + 1
                && final(self).lock_view() == *final(g.lock),
            r is None ==> *final(self) == *old(self),
    {
        RawExclusiveGuard::try_new(&mut self.lock)
    }
}

impl<L: RawMutex + RawExclusiveLockTimed> Mutex<L> {
    /// Attempts to acquire this lock until a timeout is reached.
    pub fn try_lock_until(&mut self, instant: L::Instant) -> (r: Option<RawExclusiveGuard<'_, L>>)
        requires
            old(self).lock_view().exc_wf(),
        ensures
            r is Some <==> old(self).lock_view().exc_available(),
            r matches Some(g) ==> g.lock_view().exc_wf() && g.lock_view().exc_count() == old(self).lock_view().exc_count() + 1
                && final(self).lock_view() == *final(g.lock),
            r is None ==> final(self).lock_view().exc_wf() && final(self).lock_view().exc_count() == old(self).lock_view().exc_count(),
    {
        if self.lock.exc_try_lock_until(instant) {
            Some(RawExclusiveGuard::from_raw(&mut self.lock))
        } else {
            None
        }
    }

    /// Attempts to acquire this lock within the given duration.
    pub fn try_lock_for(&mut self, duration: L::Duration) -> (r: Option<RawExclusiveGuard<'_, L>>)
        requires
            old(self).lock_view().exc_wf(),
        ensures
            r is Some <==> old(self).lock_view().exc_available(),
            r matches Some(g) ==> g.lock_view().exc_wf() && g.lock_view().exc_count() == old(self).lock_view().exc_count() + 1
                && final(self).lock_view() == *final(g.lock),
            r is None ==> final(self).lock_view().exc_wf() && final(self).lock_view().exc_count() == old(self).lock_view().exc_count(),
    {
        if self.lock.exc_try_lock_for(duration) {
            Some(RawExclusiveGuard::from_raw(&mut self.lock))
        } else {
            None
        }
    }
}

impl<L: RawMutex + crate::Init> Default for Mutex<L> {
    /// A raw mutex in its initial state
    fn default() -> (r: Self)
        ensures
            r.lock_view().is_init(),
            r.lock_view().exc_wf(),
            r.lock_view().exc_count() == 0,
            r.lock_view().exc_available(),
    {
        let r: Self = Self::new();
        proof {
            r.lock_view().lemma_init_available();
        }
        r
    }
}

} // verus!
