//! A default raw mutex lock
use vstd::prelude::*;
use crate::exclusive_lock::{RawExclusiveLock, RawExclusiveLockFair, RawExclusiveLockTimed};
use crate::mutex::adaptive::AdaptiveLock;

verus! {

/// A default raw mutex
pub type RawMutex = crate::mutex::raw::Mutex<DefaultLock>;

/// A default mutex
pub type Mutex<T> = crate::mutex::Mutex<DefaultLock, T>;

/// A default mutex lock implementation
///
/// It spins for a while and then parks waiting threads, as [`AdaptiveLock`] does.
pub struct DefaultLock(AdaptiveLock);

impl DefaultLock {
    /// The lock it forwards to
    pub closed spec fn inner_view(&self) -> AdaptiveLock {
        self.0
    }

    /// Create a new default mutex lock
    pub fn new() -> (r: Self)
        ensures
            r.inner_view().word() == 0,
    {
        DefaultLock(AdaptiveLock::new())
    }

    /// Create a new raw mutex
    pub fn raw_mutex() -> (r: RawMutex)
        ensures
            r.lock_view().inner_view().word() == 0,
    {
        crate::mutex::raw::Mutex::from_raw(Self::new())
    }

    /// Create a new mutex
    pub fn mutex<T>(value: T) -> (r: Mutex<T>)
        ensures
            r.lock_view().inner_view().word() == 0,
            r.value_view() == value,
    {
        crate::mutex::Mutex::from_raw_parts(Self::raw_mutex(), value)
    }
}

impl crate::Init for DefaultLock {
    open spec fn is_init(&self) -> bool {
        self.inner_view().word() == 0
    }

    fn init() -> (r: Self) {
        DefaultLock(<AdaptiveLock as crate::Init>::init())
    }
}

impl crate::RawLockInfo for DefaultLock {
    type ExclusiveGuardTraits = ();
    type ShareGuardTraits = ();
}

impl crate::RawTimedLock for DefaultLock {
    type Instant = std::time::Instant;
    type Duration = core::time::Duration;
}

impl crate::mutex::RawMutex for DefaultLock {
    proof fn lemma_init_available(&self) {
        self.0.lemma_init_available();
    }
}

impl RawExclusiveLock for DefaultLock {
    open spec fn exc_wf(&self) -> bool {
        true
    }

    open spec fn exc_count(&self) -> nat {
        self.inner_view().exc_count()
    }

    open spec fn exc_available(&self) -> bool {
        self.inner_view().exc_available()
    }

    proof fn lemma_available_unheld(&self) {
    }

    closed spec fn exc_bumped(&self) -> Self {
        DefaultLock(self.0.exc_bumped())
    }

    fn exc_lock(&mut self)
        ensures
            final(self).inner_view().word() == old(self).inner_view().word() | crate::mutex::adaptive::LOCK_BIT,
    {
        self.0.exc_lock();
    }

    fn exc_try_lock(&mut self) -> (r: bool)
        ensures
            r ==> final(self).inner_view().word() == old(self).inner_view().word() | crate::mutex::adaptive::LOCK_BIT,
    {
        self.0.exc_try_lock()
    }

    fn exc_unlock(&mut self) {
        self.0.exc_unlock();
    }

    fn exc_bump(&mut self) {
        self.0.exc_bump();
    }
}

impl RawExclusiveLockFair for DefaultLock {
    closed spec fn exc_bumped_fair(&self) -> Self {
        DefaultLock(self.0.exc_bumped_fair())
    }

    fn exc_unlock_fair(&mut self) {
        self.0.exc_unlock_fair();
    }

    fn exc_bump_fair(&mut self) {
        self.0.exc_bump_fair();
    }
}

impl RawExclusiveLockTimed for DefaultLock {
    fn exc_try_lock_until(&mut self, instant: std::time::Instant) -> (r: bool) {
        self.0.exc_try_lock_until(instant)
    }

    fn exc_try_lock_for(&mut self, duration: core::time::Duration) -> (r: bool) {
        self.0.exc_try_lock_for(duration)
    }
}

} // verus!
