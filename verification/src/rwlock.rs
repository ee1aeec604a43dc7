//! a type safe implementation of a `RwLock`
use vstd::prelude::*;
use crate::exclusive_lock::{ExclusiveGuard, RawExclusiveLockTimed};
use crate::share_lock::{RawShareLock, RawShareLockTimed, ShareGuard};

pub mod raw;

verus! {

/// Types implementing this trait can be used by [`RwLock`] to form a safe and
/// fully-functioning rwlock type.
///
/// A *shr lock* cannot exist at the same time as an *exc lock*.
pub trait RawRwLock: crate::mutex::RawMutex + RawShareLock {
    /// A lock in its initial state holds no *shr lock* and can be read-locked at once
    proof fn lemma_init_shr_available(&self)
        requires
            self.is_init(),
        ensures
            self.shr_wf(),
            self.shr_count() == 0,
            self.shr_available(),
    ;

    /// A lock word that serves *exc locks* serves *shr locks* too, a lock of
    /// one kind keeps the other kind out, and a lock that nobody holds can be
    /// read-locked at once: readers get in again once the writer has left
    proof fn lemma_rw_exclusion(&self)
        ensures
            self.exc_wf() ==> self.shr_wf(),
            self.shr_count() > 0 ==> !self.exc_available(),
            self.exc_count() > 0 ==> !self.shr_available(),
            self.exc_available() ==> self.shr_count() == 0,
            self.exc_count() == 0 && self.shr_count() == 0 ==> self.shr_available(),
    ;
}

/// A read-write syncronization primitive useful for protecting shared data
///
/// The data can be written through the guard of `write`, and read through the
/// tokens of `read` with [`RwLock::get`].
pub struct RwLock<L, T> {
    raw: raw::RwLock<L>,
    value: T,
}

impl<L, T> RwLock<L, T> {
    /// The lock word of the rwlock
    pub closed spec fn lock_view(&self) -> L {
        self.raw.lock_view()
    }

    /// The protected value
    pub closed spec fn value_view(&self) -> T {
        self.value
    }

    /// Create a rwlock from a raw rwlock that holds no lock, and a value
    pub fn from_raw_parts(raw: raw::RwLock<L>, value: T) -> (r: Self)
        ensures
            r.lock_view() == raw.lock_view(),
            r.value_view() == value,
    {
        RwLock { raw, value }
    }

    /// Decomposes the rwlock into a raw rwlock and its value
    pub fn into_raw_parts(self) -> (r: (raw::RwLock<L>, T))
        ensures
            r.0.lock_view() == self.lock_view(),
            r.1 == self.value_view(),
    {
        (self.raw, self.value)
    }

    /// Consumes this rwlock, returning the underlying data.
    pub fn into_inner(self) -> (r: T)
        ensures
            r == self.value_view(),
    {
        self.value
    }

    /// the underlying raw rwlock
    pub fn raw(&self) -> (r: &raw::RwLock<L>)
        ensures
            r.lock_view() == self.lock_view(),
    {
        &self.raw
    }

    /// Returns a mutable reference to the underlying data.
    ///
    /// Since this call borrows the `RwLock` mutably, no actual locking needs to
    /// take place.
    pub fn get_mut(&mut self) -> (r: &mut T)
        ensures
            *r == old(self).value_view(),
            final(self).value_view() == *final(r),
            final(self).lock_view() == old(self).lock_view(),
    {
        &mut self.value
    }
}

impl<L: RawRwLock + crate::Init, T> RwLock<L, T> {
    /// Creates a new rwlock in an unlocked state ready for use.
    pub fn new(value: T) -> (r: Self)
        ensures
            r.lock_view().is_init(),
            r.lock_view().exc_wf(),
            r.lock_view().exc_count() == 0,
            r.lock_view().exc_available(),
            r.lock_view().shr_wf(),
            r.lock_view().shr_count() == 0,
            r.lock_view().shr_available(),
            r.value_view() == value,
    {
        let r: Self = RwLock { raw: raw::RwLock::new(), value };
        proof {
            r.lock_view().lemma_init_available();
            r.lock_view().lemma_init_shr_available();
        }
        r
    }
}

impl<L: RawRwLock, T> RwLock<L, T> {
    /// Locks this `RwLock` with exclusive write access, which must be available
    pub fn write(&mut self) -> (r: ExclusiveGuard<'_, L, T>)
        requires
            old(self).lock_view().exc_wf(),
            old(self).lock_view().exc_available(),
        ensures
            r.raw.lock_view().exc_wf(),
            r.raw.lock_view().exc_count() == old(self).lock_view().exc_count() + 1,
            r.value_view() == old(self).value_view(),
            final(self).lock_view() == *final(r.raw.lock),
            final(self).value_view() == *final(r.value),
    {
        let raw = self.raw.write();
        ExclusiveGuard { raw, value: &mut self.value }
    }

    /// Attempts to lock this `RwLock` with exclusive write access.
    pub fn try_write(&mut self) -> (r: Option<ExclusiveGuard<'_, L, T>>)
        requires
            old(self).lock_view().exc_wf(),
        ensures
            r is Some <==> old(self).lock_view().exc_available(),
            r matches Some(g) ==> g.raw.lock_view().exc_wf() && g.raw.lock_view().exc_count() == old(self).lock_view().exc_count() + 1
                && g.value_view() == old(self).value_view()
                && final(self).lock_view() == *final(g.raw.lock)
                && final(self).value_view() == *final(g.value),
            r is None ==> *final(self) == *old(self),
    {
        match self.raw.try_write() {
            Some(raw) => Some(ExclusiveGuard { raw, value: &mut self.value }),
            None => None,
        }
    }

    /// Locks this `RwLock` with shared read access, which must be available
    pub fn read(&mut self) -> (r: ShareGuard<L, T>)
        requires
            crate::rwlock::readable_now(old(self).lock_view()),
        ensures
            final(self).lock_view().shr_wf(),
            final(self).lock_view().shr_count() == old(self).lock_view().shr_count() + 1,
            final(self).value_view() == old(self).value_view(),
    {
        ShareGuard::from_raw_parts(self.raw.read())
    }

    /// Attempts to acquire this `RwLock` with shared read access.
    pub fn try_read(&mut self) -> (r: Option<ShareGuard<L, T>>)
        requires
            old(self).lock_view().shr_wf() || old(self).lock_view().exc_wf(),
        ensures
            r is Some <==> old(self).lock_view().shr_available(),
            final(self).lock_view().shr_wf(),
            r is Some ==> final(self).lock_view().shr_count() == old(self).lock_view().shr_count() + 1,
            r is None ==> *final(self) == *old(self),
            final(self).value_view() == old(self).value_view(),
            old(self).lock_view().exc_wf() && old(self).lock_view().exc_available() ==> r is Some,
    {
        match self.raw.try_read() {
            Some(raw) => Some(ShareGuard::from_raw_parts(raw)),
            None => None,
        }
    }

    /// The protected value, read through held shared access
    pub fn get(&self, guard: &ShareGuard<L, T>) -> (r: &T)
        ensures
            *r == self.value_view(),
    {
        &self.value
    }

    /// Releases the shared read access that `guard` stands for
    pub fn unlock_read(&mut self, guard: ShareGuard<L, T>)
        requires
            old(self).lock_view().shr_wf(),
            old(self).lock_view().shr_count() > 0,
        ensures
            final(self).lock_view().shr_wf(),
            final(self).lock_view().shr_count() == old(self).lock_view().shr_count() - 1,
            final(self).lock_view().shr_count() == 0 ==> final(self).lock_view().shr_available(),
            final(self).value_view() == old(self).value_view(),
    {
        self.raw.unlock_read(ShareGuard::into_raw_parts(guard));
    }
}

impl<L: RawRwLock + RawExclusiveLockTimed + RawShareLockTimed, T> RwLock<L, T> {
    /// Attempts to acquire exclusive write access until a timeout is reached.
    pub fn try_write_until(&mut self, instant: L::Instant) -> (r: Option<ExclusiveGuard<'_, L, T>>)
        requires
            old(self).lock_view().exc_wf(),
        ensures
            r is Some <==> old(self).lock_view().exc_available(),
            r matches Some(g) ==> g.raw.lock_view().exc_wf() && g.raw.lock_view().exc_count() == old(self).lock_view().exc_count() + 1
                && g.value_view() == old(self).value_view()
                && final(self).lock_view() == *final(g.raw.lock)
                && final(self).value_view() == *final(g.value),
            r is None ==> final(self).lock_view().exc_wf() && final(self).lock_view().exc_count() == old(self).lock_view().exc_count()
                && final(self).value_view() == old(self).value_view(),
    {
        match self.raw.try_write_until(instant) {
            Some(raw) => Some(ExclusiveGuard { raw, value: &mut self.value }),
            None => None,
        }
    }

    /// Attempts to acquire exclusive write access within the given duration.
    pub fn try_write_for(&mut self, duration: L::Duration) -> (r: Option<ExclusiveGuard<'_, L, T>>)
        requires
            old(self).lock_view().exc_wf(),
        ensures
            r is Some <==> old(self).lock_view().exc_available(),
            r matches Some(g) ==> g.raw.lock_view().exc_wf() && g.raw.lock_view().exc_count() == old(self).lock_view().exc_count() + 1
                && g.value_view() == old(self).value_view()
                && final(self).lock_view() == *final(g.raw.lock)
                && final(self).value_view() == *final(g.value),
            r is None ==> final(self).lock_view().exc_wf() && final(self).lock_view().exc_count() == old(self).lock_view().exc_count()
                && final(self).value_view() == old(self).value_view(),
    {
        match self.raw.try_write_for(duration) {
            Some(raw) => Some(ExclusiveGuard { raw, value: &mut self.value }),
            None => None,
        }
    }

    /// Attempts to acquire shared read access until a timeout is reached.
    pub fn try_read_until(&mut self, instant: L::Instant) -> (r: Option<ShareGuard<L, T>>)
        requires
            old(self).lock_view().shr_wf(),
        ensures
            r is Some <==> old(self).lock_view().shr_available(),
            final(self).lock_view().shr_wf(),
            r is Some ==> final(self).lock_view().shr_count() == old(self).lock_view().shr_count() + 1,
            r is None ==> final(self).lock_view().shr_count() == old(self).lock_view().shr_count(),
            final(self).value_view() == old(self).value_view(),
    {
        match self.raw.try_read_until(instant) {
            Some(raw) => Some(ShareGuard::from_raw_parts(raw)),
            None => None,
        }
    }

    /// Attempts to acquire shared read access within the given duration.
    pub fn try_read_for(&mut self, duration: L::Duration) -> (r: Option<ShareGuard<L, T>>)
        requires
            old(self).lock_view().shr_wf(),
        ensures
            r is Some <==> old(self).lock_view().shr_available(),
            final(self).lock_view().shr_wf(),
            r is Some ==> final(self).lock_view().shr_count() == old(self).lock_view().shr_count() + 1,
            r is None ==> final(self).lock_view().shr_count() == old(self).lock_view().shr_count(),
            final(self).value_view() == old(self).value_view(),
    {
        match self.raw.try_read_for(duration) {
            Some(raw) => Some(ShareGuard::from_raw_parts(raw)),
            None => None,
        }
    }
}

/// While a reader holds a rwlock, no writer can take it without waiting
pub proof fn readers_exclude_writer<L: RawRwLock>(lock: &L)
    requires
        lock.shr_count() > 0,
    ensures
        !lock.exc_available(),
{
    lock.lemma_rw_exclusion();
}

/// A rwlock that can be read-locked at once: it serves *shr locks* and one is
/// available, or it serves *exc locks* and nobody holds it
pub open spec fn readable_now<L: RawRwLock>(lock: L) -> bool {
    ||| lock.shr_wf() && lock.shr_available()
    ||| lock.exc_wf() && lock.exc_available()
}

/// Once the writer has left a rwlock and nobody else holds it, readers get in
/// without waiting
pub proof fn readers_return_after_writer<L: RawRwLock>(lock: &L)
    requires
        lock.exc_wf(),
        lock.exc_available(),
    ensures
        lock.shr_wf(),
        lock.shr_count() == 0,
        lock.shr_available(),
{
    lock.lemma_available_unheld();
    lock.lemma_rw_exclusion();
}

/// While a writer holds a rwlock, no reader can take it without waiting
pub proof fn writer_excludes_readers<L: RawRwLock>(lock: &L)
    requires
        lock.exc_count() > 0,
    ensures
        !lock.shr_available(),
{
    lock.lemma_rw_exclusion();
}

impl<L: RawRwLock + crate::Init, T: Default> Default for RwLock<L, T> {
    /// A rwlock in its initial state protecting the default value
    fn default() -> (r: Self)
        ensures
            r.lock_view().is_init(),
            r.lock_view().exc_wf(),
            r.lock_view().exc_count() == 0,
            r.lock_view().exc_available(),
            r.lock_view().shr_wf(),
            r.lock_view().shr_count() == 0,
            r.lock_view().shr_available(),
    {
        let r: Self = Self::new(T::default());
        proof {
            r.lock_view().lemma_init_available();
            r.lock_view().lemma_init_shr_available();
        }
        r
    }
}

} // verus!
