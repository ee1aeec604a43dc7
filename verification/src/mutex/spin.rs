//! a spin lock
use vstd::prelude::*;
use crate::exclusive_lock::RawExclusiveLock;

verus! {

/// a spin lock based raw mutex
pub type RawMutex = crate::mutex::raw::Mutex<SpinLock>;

/// a spin lock based mutex
pub type Mutex<T> = crate::mutex::Mutex<SpinLock, T>;

/// A spin lock: waiting threads spin until the lock bit is clear
pub struct SpinLock {
    lock: bool,
}

impl SpinLock {
    /// Whether the lock is held
    pub closed spec fn locked(&self) -> bool {
        self.lock
    }

    /// create a new spin lock
    pub fn new() -> (r: Self)
        ensures
            !r.locked(),
    {
        SpinLock { lock: false }
    }

    /// create a new spin lock based raw mutex
    pub fn raw_mutex() -> (r: RawMutex)
        ensures
            !r.lock_view().locked(),
    {
        crate::mutex::raw::Mutex::from_raw(Self::new())
    }

    /// create a new spin lock based mutex
    pub fn mutex<T>(value: T) -> (r: Mutex<T>)
        ensures
            !r.lock_view().locked(),
            r.value_view() == value,
    {
        crate::mutex::Mutex::from_raw_parts(Self::raw_mutex(), value)
    }
}

impl crate::Init for SpinLock {
    open spec fn is_init(&self) -> bool {
        !self.locked()
    }

    fn init() -> (r: Self) {
        SpinLock { lock: false }
    }
}

impl crate::RawLockInfo for SpinLock {
    type ExclusiveGuardTraits = ();
    type ShareGuardTraits = ();
}

impl crate::mutex::RawMutex for SpinLock {
    proof fn lemma_init_available(&self) {
    }
}

impl RawExclusiveLock for SpinLock {
    open spec fn exc_wf(&self) -> bool {
        true
    }

    open spec fn exc_count(&self) -> nat {
        if self.locked() { 1 } else { 0 }
    }

    open spec fn exc_available(&self) -> bool {
        !self.locked()
    }

    proof fn lemma_available_unheld(&self) {
    }

    /// Bumping leaves the lock word as it is
    open spec fn exc_bumped(&self) -> Self {
        *self
    }

    /// acquires the lock; a thread that found it held would spin until another thread released it
    fn exc_lock(&mut self)
        ensures
            final(self).locked(),
    {
        let ok = self.exc_try_lock();
    }

    fn exc_try_lock(&mut self) -> (r: bool)
        ensures
            final(self).locked(),
    {
        if self.lock {
            false
        } else {
            self.lock = true;
            true
        }
    }

    fn exc_unlock(&mut self)
        ensures
            !final(self).locked(),
    {
        self.lock = false;
    }

    fn exc_bump(&mut self)
        ensures
            *final(self) == *old(self),
    {
    }
}

} // verus!
