//! a reentrant mutex built from an exclusive lock and a counter
use vstd::prelude::*;
use crate::share_lock::{RawShareGuard, RawShareLock, RawShareLockTimed, ShareGuard};

pub mod counter;
pub mod global;
pub mod lock;
pub mod raw;

pub use crate::reentrant::{RawReentrantMutex, ThreadInfo};

verus! {

/// A mutual exclusion primitive that one thread can lock any number of times
///
/// Each lock can only be used in a single thread; two threads can't both hold
/// a lock on the reentrant mutex at the same time.
pub struct ReentrantMutex<L, T> {
    raw: raw::ReentrantMutex<L>,
    value: T,
}

impl<L, T> ReentrantMutex<L, T> {
    /// The lock word of the mutex
    pub closed spec fn lock_view(&self) -> L {
        self.raw.lock_view()
    }

    /// The protected value
    pub closed spec fn value_view(&self) -> T {
        self.value
    }

    /// Create a reentrant mutex from a raw reentrant mutex and a value
    pub fn from_raw_parts(raw: raw::ReentrantMutex<L>, value: T) -> (r: Self)
        ensures
            r.lock_view() == raw.lock_view(),
            r.value_view() == value,
    {
        ReentrantMutex { raw, value }
    }

    /// Decomposes the mutex into a raw mutex and its value
    pub fn into_raw_parts(self) -> (r: (raw::ReentrantMutex<L>, T))
        ensures
            r.0.lock_view() == self.lock_view(),
            r.1 == self.value_view(),
    {
        (self.raw, self.value)
    }

    /// Consumes this mutex, returning the underlying data.
    pub fn into_inner(self) -> (r: T)
        ensures
            r == self.value_view(),
    {
        self.value
    }

    /// the underlying raw reentrant mutex
    pub fn raw(&self) -> (r: &raw::ReentrantMutex<L>)
        ensures
            r.lock_view() == self.lock_view(),
    {
        &self.raw
    }

    /// Returns a mutable reference to the underlying data.
    pub fn get_mut(&mut self) -> (r: &mut T)
        ensures
            *r == old(self).value_view(),
            final(self).value_view() == *final(r),
            final(self).lock_view() == old(self).lock_view(),
    {
        &mut self.value
    }
}

impl<L: RawReentrantMutex + crate::Init, T> ReentrantMutex<L, T> {
    /// Create a new reentrant mutex
    pub fn new(value: T) -> (r: Self)
        ensures
            r.lock_view().is_init(),
            r.lock_view().shr_wf(),
            r.lock_view().shr_count() == 0,
            r.lock_view().shr_available(),
            r.value_view() == value,
    {
        let r: Self = ReentrantMutex { raw: raw::ReentrantMutex::new(), value };
        proof {
            r.lock_view().lemma_init_available();
        }
        r
    }
}

impl<L: RawReentrantMutex, T> ReentrantMutex<L, T> {
    /// Acquires a lock; if the current thread already holds one this cannot
    /// block and always succeeds
    pub fn lock(&mut self) -> (r: ShareGuard<L, T>)
        requires
            old(self).lock_view().shr_wf(),
            old(self).lock_view().shr_available(),
        ensures
            final(self).lock_view().shr_wf(),
            final(self).lock_view().shr_count() == old(self).lock_view().shr_count() + 1,
            final(self).value_view() == old(self).value_view(),
            crate::reentrant::holder_can_relock(old(self).lock_view(), final(self).lock_view()),
    {
        ShareGuard::from_raw_parts(self.raw.lock())
    }

    /// Attempts to acquire this lock
    pub fn try_lock(&mut self) -> (r: Option<ShareGuard<L, T>>)
        requires
            old(self).lock_view().shr_wf(),
        ensures
            final(self).lock_view().shr_wf(),
            r is Some <==> old(self).lock_view().shr_available(),
            r is Some ==> final(self).lock_view().shr_count() == old(self).lock_view().shr_count() + 1,
            r is None ==> *final(self) == *old(self),
            final(self).value_view() == old(self).value_view(),
            r is Some ==> crate::reentrant::holder_can_relock(old(self).lock_view(), final(self).lock_view()),
    {
        match self.raw.try_lock() {
            Some(raw) => Some(ShareGuard::from_raw_parts(raw)),
            None => None,
        }
    }

    /// The protected value, read through a held lock
    pub fn get(&self, guard: &ShareGuard<L, T>) -> (r: &T)
        ensures
            *r == self.value_view(),
    {
        &self.value
    }

    /// Releases the lock that `guard` stands for
    pub fn unlock(&mut self, guard: ShareGuard<L, T>)
        requires
            old(self).lock_view().shr_wf(),
            old(self).lock_view().shr_count() > 0,
        ensures
            final(self).lock_view().shr_wf(),
            final(self).lock_view().shr_count() == old(self).lock_view().shr_count() - 1,
            final(self).lock_view().shr_count() == 0 ==> final(self).lock_view().shr_available(),
            final(self).value_view() == old(self).value_view(),
    {
        self.raw.unlock(ShareGuard::into_raw_parts(guard));
    }
}

impl<L: RawReentrantMutex + RawShareLockTimed, T> ReentrantMutex<L, T> {
    /// Attempts to acquire this lock until a timeout is reached.
    pub fn try_lock_until(&mut self, instant: L::Instant) -> (r: Option<ShareGuard<L, T>>)
        requires
            old(self).lock_view().shr_wf(),
        ensures
            final(self).lock_view().shr_wf(),
            r is Some <==> old(self).lock_view().shr_available(),
            r is Some ==> final(self).lock_view().shr_count() == old(self).lock_view().shr_count() + 1,
            r is None ==> final(self).lock_view().shr_count() == old(self).lock_view().shr_count(),
            final(self).value_view() == old(self).value_view(),
            r is Some ==> crate::reentrant::holder_can_relock(old(self).lock_view(), final(self).lock_view()),
    {
        match self.raw.try_lock_until(instant) {
            Some(raw) => Some(ShareGuard::from_raw_parts(raw)),
            None => None,
        }
    }

    /// Attempts to acquire this lock within the given duration.
    pub fn try_lock_for(&mut self, duration: L::Duration) -> (r: Option<ShareGuard<L, T>>)
        requires
            old(self).lock_view().shr_wf(),
        ensures
            final(self).lock_view().shr_wf(),
            r is Some <==> old(self).lock_view().shr_available(),
            r is Some ==> final(self).lock_view().shr_count() == old(self).lock_view().shr_count() + 1,
            r is None ==> final(self).lock_view().shr_count() == old(self).lock_view().shr_count(),
            final(self).value_view() == old(self).value_view(),
            r is Some ==> crate::reentrant::holder_can_relock(old(self).lock_view(), final(self).lock_view()),
    {
        match self.raw.try_lock_for(duration) {
            Some(raw) => Some(ShareGuard::from_raw_parts(raw)),
            None => None,
        }
    }
}

impl<L: crate::exclusive_lock::RawExclusiveLock, S: counter::Scalar, I: ThreadInfo, T> ReentrantMutex<lock::ReLock<L, S, I>, T> {
    /// Attempts to acquire this lock from the thread that `thread` names: the
    /// thread that holds it locks it again, any other thread gets it only when
    /// no thread holds it
    pub fn try_lock_from<J: ThreadInfo>(&mut self, thread: &J) -> (r: Option<ShareGuard<lock::ReLock<L, S, I>, T>>)
        requires
            old(self).lock_view().wf(),
        ensures
            final(self).lock_view().wf(),
            r is Some <==> old(self).lock_view().available_to(thread.thread_id()),
            r is Some ==> final(self).lock_view().owner() == thread.thread_id()
                && final(self).lock_view().held_by(thread.thread_id()) == old(self).lock_view().held_by(thread.thread_id()) + 1,
            r is None ==> final(self).lock_view() == old(self).lock_view(),
            final(self).value_view() == old(self).value_view(),
    {
        if self.raw.inner_mut().try_lock_from(thread) {
            Some(ShareGuard::from_raw_parts(RawShareGuard::from_raw()))
        } else {
            None
        }
    }

    /// Releases the lock that `guard` stands for, on behalf of the thread
    /// that owns the lock, whichever thread that is
    pub fn unlock_owned(&mut self, guard: ShareGuard<lock::ReLock<L, S, I>, T>)
        requires
            old(self).lock_view().wf(),
            old(self).lock_view().owner() != 0,
        ensures
            final(self).lock_view().wf(),
            final(self).lock_view().held_by(old(self).lock_view().owner())
                == old(self).lock_view().held_by(old(self).lock_view().owner()) - 1,
            final(self).lock_view().held_by(old(self).lock_view().owner()) == 0
                ==> final(self).lock_view().owner() == 0 && final(self).lock_view().inner_view().exc_available(),
            final(self).value_view() == old(self).value_view(),
    {
        self.raw.inner_mut().unlock_owned();
    }
}

impl<L: RawReentrantMutex + crate::Init, T: Default> Default for ReentrantMutex<L, T> {
    /// A reentrant mutex in its initial state protecting the default value
    fn default() -> (r: Self)
        ensures
            r.lock_view().is_init(),
            r.lock_view().shr_wf(),
            r.lock_view().shr_count() == 0,
            r.lock_view().shr_available(),
    {
        let r: Self = Self::new(T::default());
        proof {
            r.lock_view().lemma_init_available();
        }
        r
    }
}

} // verus!
