//! A default splittable raw mutex
use vstd::prelude::*;
use crate::exclusive_lock::{
    RawExclusiveLock, RawExclusiveLockFair, RawExclusiveLockTimed, SplittableExclusiveLock,
};
use crate::mutex::splittable::SplitLock;

verus! {

/// A default splittable raw mutex
pub type RawMutex = crate::mutex::raw::Mutex<SplitDefaultLock>;

/// A default splittable mutex
pub type Mutex<T> = crate::mutex::Mutex<SplitDefaultLock, T>;

/// A default splittable mutex lock implementation
///
/// It spins for a while and then parks waiting threads, as [`SplitLock`] does.
pub struct SplitDefaultLock(SplitLock);

impl SplitDefaultLock {
    /// The lock it forwards to
    pub closed spec fn inner_view(&self) -> SplitLock {
        self.0
    }

    /// Create a new default splittable mutex lock
    pub fn new() -> (r: Self)
        ensures
            r.inner_view().word() == 0,
    {
        SplitDefaultLock(SplitLock::new())
    }

    /// Create a new raw mutex
    pub fn raw_mutex() -> (r: RawMutex)
        ensures
            r.lock_view().inner_view().word() == 0,
    {
        crate::mutex::raw::Mutex::from_raw(Self::new())
    }

    /// Create a new mutex
    pub fn mutex<T>(value: T) -> (r: Mutex<T>)
        ensures
            r.lock_view().inner_view().word() == 0,
            r.value_view() == value,
    {
        crate::mutex::Mutex::from_raw_parts(Self::raw_mutex(), value)
    }
}

impl crate::Init for SplitDefaultLock {
    open spec fn is_init(&self) -> bool {
        self.inner_view().word() == 0
    }

    fn init() -> (r: Self) {
        SplitDefaultLock(<SplitLock as crate::Init>::init())
    }
}

impl crate::RawLockInfo for SplitDefaultLock {
    type ExclusiveGuardTraits = ();
    type ShareGuardTraits = ();
}

impl crate::RawTimedLock for SplitDefaultLock {
    type Instant = std::time::Instant;
    type Duration = core::time::Duration;
}

impl crate::mutex::RawMutex for SplitDefaultLock {
    proof fn lemma_init_available(&self) {
    }
}

impl RawExclusiveLock for SplitDefaultLock {
    open spec fn exc_wf(&self) -> bool {
        true
    }

    open spec fn exc_count(&self) -> nat {
        self.inner_view().exc_count()
    }

    open spec fn exc_available(&self) -> bool {
        self.inner_view().exc_available()
    }

    proof fn lemma_available_unheld(&self) {
    }

    closed spec fn exc_bumped(&self) -> Self {
        SplitDefaultLock(self.0.exc_bumped())
    }

    fn exc_lock(&mut self)
        ensures
            final(self).inner_view().word() == old(self).inner_view().word() + crate::mutex::splittable::INC,
    {
        self.0.exc_lock();
    }

    fn exc_try_lock(&mut self) -> (r: bool)
        ensures
            r ==> final(self).inner_view().word() == old(self).inner_view().word() + crate::mutex::splittable::INC,
    {
        self.0.exc_try_lock()
    }

    fn exc_unlock(&mut self) {
        self.0.exc_unlock();
    }

    fn exc_bump(&mut self) {
        self.0.exc_bump();
    }
}

impl RawExclusiveLockFair for SplitDefaultLock {
    closed spec fn exc_bumped_fair(&self) -> Self {
        SplitDefaultLock(self.0.exc_bumped_fair())
    }

    fn exc_unlock_fair(&mut self) {
        self.0.exc_unlock_fair();
    }

    fn exc_bump_fair(&mut self) {
        self.0.exc_bump_fair();
    }
}

impl RawExclusiveLockTimed for SplitDefaultLock {
    fn exc_try_lock_until(&mut self, instant: std::time::Instant) -> (r: bool) {
        self.0.exc_try_lock_until(instant)
    }

    fn exc_try_lock_for(&mut self, duration: core::time::Duration) -> (r: bool) {
        self.0.exc_try_lock_for(duration)
    }
}

impl SplittableExclusiveLock for SplitDefaultLock {
    open spec fn exc_split_room(&self) -> bool {
        self.inner_view().exc_split_room()
    }

    fn exc_split(&mut self) {
        self.0.exc_split();
    }
}

} // verus!
