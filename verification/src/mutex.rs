//! A mutex that protects a value
use vstd::prelude::*;
use crate::exclusive_lock::{ExclusiveGuard, RawExclusiveGuard, RawExclusiveLock, RawExclusiveLockTimed};

pub mod adaptive;
pub mod default;
pub mod global;
pub mod local;
pub mod local_simple;
pub mod local_splittable;
pub mod local_tagged;
pub mod raw;
pub mod spin;
pub mod splittable;
pub mod splittable_default;
pub mod splittable_spin;
pub mod tagged;
pub mod tagged_default;
pub mod tagged_spin;
pub mod word_lock;

verus! {

/// Types implementing this trait can be used by [`Mutex`] to form a safe and fully-functioning mutex type.
pub trait RawMutex: crate::RawLockInfo + RawExclusiveLock + crate::Init {
    /// A lock in its initial state holds no *exc lock* and can be locked at once
    proof fn lemma_init_available(&self)
        requires
            self.is_init(),
        ensures
            self.exc_wf(),
            self.exc_count() == 0,
            self.exc_available(),
    ;
}

/// A mutual exclusion primitive useful for protecting shared data
///
/// The data can only be reached through the guards returned from `lock` and
/// `try_lock`, or through `get_mut` when the mutex itself is borrowed mutably.
pub struct Mutex<L, T> {
    raw: raw::Mutex<L>,
    value: T,
}

impl<L, T> Mutex<L, T> {
    /// The lock word of the mutex
    pub closed spec fn lock_view(&self) -> L {
        self.raw.lock_view()
    }

    /// The protected value
    pub closed spec fn value_view(&self) -> T {
        self.value
    }

    /// Create a new mutex with the given raw mutex
    pub fn from_raw_parts(raw: raw::Mutex<L>, value: T) -> (r: Self)
        ensures
            r.lock_view() == raw.lock_view(),
            r.value_view() == value,
    {
        Mutex { raw, value }
    }

    /// Decomposes the mutex into a raw mutex and its value
    pub fn into_raw_parts(self) -> (r: (raw::Mutex<L>, T))
        ensures
            r.0.lock_view() == self.lock_view(),
            r.1 == self.value_view(),
    {
        (self.raw, self.value)
    }

    /// Consumes this mutex, returning the underlying data.
    pub fn into_inner(self) -> (r: T)
        ensures
            r == self.value_view(),
    {
        self.value
    }

    /// the underlying raw mutex
    pub fn raw(&self) -> (r: &raw::Mutex<L>)
        ensures
            r.lock_view() == self.lock_view(),
    {
        &self.raw
    }

    /// Returns a mutable reference to the underlying data.
    ///
    /// The mutable borrow of the mutex already guarantees that no lock exists.
    pub fn get_mut(&mut self) -> (r: &mut T)
        ensures
            *r == old(self).value_view(),
            final(self).value_view() == *final(r),
            final(self).lock_view() == old(self).lock_view(),
    {
        &mut self.value
    }
}

impl<L: RawMutex + crate::Init, T> Mutex<L, T> {
    /// Creates a new mutex in an unlocked state ready for use.
    pub fn new(value: T) -> (r: Self)
        ensures
            r.lock_view().is_init(),
            r.lock_view().exc_wf(),
            r.lock_view().exc_count() == 0,
            r.lock_view().exc_available(),
            r.value_view() == value,
    {
        let r: Self = Mutex { raw: raw::Mutex::new(), value };
        proof {
            r.lock_view().lemma_init_available();
        }
        r
    }
}

impl<L: RawMutex, T> Mutex<L, T> {
    /// Acquires the mutex, which must be available: no other thread can
    /// release it while this one waits.
    pub fn lock(&mut self) -> (r: ExclusiveGuard<'_, L, T>)
        requires
            old(self).lock_view().exc_wf(),
            old(self).lock_view().exc_available(),
        ensures
            r.raw.lock_view().exc_wf(),
            r.raw.lock_view().exc_count() == old(self).lock_view().exc_count() + 1,
            r.value_view() == old(self).value_view(),
            final(self).lock_view() == *final(r.raw.lock),
            final(self).value_view() == *final(r.value),
    {
        let raw = self.raw.lock();
        ExclusiveGuard { raw, value: &mut self.value }
    }

    /// Attempts to acquire this lock.
    ///
    /// If the lock could not be acquired at this time, then `None` is returned
    /// and the mutex is left as it was.
    pub fn try_lock(&mut self) -> (r: Option<ExclusiveGuard<'_, L, T>>)
        requires
            old(self).lock_view().exc_wf(),
        ensures
            r is Some <==> old(self).lock_view().exc_available(),
            r matches Some(g) ==> g.raw.lock_view().exc_wf() && g.raw.lock_view().exc_count() == old(self).lock_view().exc_count() + 1
                && g.value_view() == old(self).value_view()
                && final(self).lock_view() == *final(g.raw.lock)
                && final(self).value_view() == *final(g.value),
            r is None ==> *final(self) == *old(self),
    {
        match self.raw.try_lock() {
            Some(raw) => Some(ExclusiveGuard { raw, value: &mut self.value }),
            None => None,
        }
    }
}

impl<L: RawMutex + RawExclusiveLockTimed, T> Mutex<L, T> {
    /// Attempts to acquire this lock until a timeout is reached.
    pub fn try_lock_until(&mut self, instant: L::Instant) -> (r: Option<ExclusiveGuard<'_, L, T>>)
        requires
            old(self).lock_view().exc_wf(),
        ensures
            r is Some <==> old(self).lock_view().exc_available(),
            r matches Some(g) ==> g.raw.lock_view().exc_wf() && g.raw.lock_view().exc_count() == old(self).lock_view().exc_count() + 1
                && g.value_view() == old(self).value_view()
                && final(self).lock_view() == *final(g.raw.lock)
                && final(self).value_view() == *final(g.value),
            r is None ==> final(self).lock_view().exc_wf() && final(self).lock_view().exc_count() == old(self).lock_view().exc_count()
                && final(self).value_view() == old(self).value_view(),
    {
        match self.raw.try_lock_until(instant) {
            Some(raw) => Some(ExclusiveGuard { raw, value: &mut self.value }),
            None => None,
        }
    }

    /// Attempts to acquire this lock within the given duration.
    pub fn try_lock_for(&mut self, duration: L::Duration) -> (r: Option<ExclusiveGuard<'_, L, T>>)
        requires
            old(self).lock_view().exc_wf(),
        ensures
            r is Some <==> old(self).lock_view().exc_available(),
            r matches Some(g) ==> g.raw.lock_view().exc_wf() && g.raw.lock_view().exc_count() == old(self).lock_view().exc_count() + 1
                && g.value_view() == old(self).value_view()
                && final(self).lock_view() == *final(g.raw.lock)
                && final(self).value_view() == *final(g.value),
            r is None ==> final(self).lock_view().exc_wf() && final(self).lock_view().exc_count() == old(self).lock_view().exc_count()
                && final(self).value_view() == old(self).value_view(),
    {
        match self.raw.try_lock_for(duration) {
            Some(raw) => Some(ExclusiveGuard { raw, value: &mut self.value }),
            None => None,
        }
    }
}

impl<L: RawMutex + crate::Init, T: Default> Default for Mutex<L, T> {
    /// A mutex in its initial state protecting the default value
    fn default() -> (r: Self)
        ensures
            r.lock_view().is_init(),
            r.lock_view().exc_wf(),
            r.lock_view().exc_count() == 0,
            r.lock_view().exc_available(),
    {
        let r: Self = Self::new(T::default());
        proof {
            r.lock_view().lemma_init_available();
        }
        r
    }
}

} // verus!
