//! a simple local (single threaded) lock
use vstd::prelude::*;
use crate::exclusive_lock::RawExclusiveLock;

verus! {

/// a local mutex
pub type Mutex<T> = crate::mutex::Mutex<RawLock, T>;

/// a simple local (single threaded) lock
pub struct RawLock {
    lock: bool,
}

impl RawLock {
    /// Whether the lock is held
    pub closed spec fn locked(&self) -> bool {
        self.lock
    }

    /// create a simple local lock
    pub fn new() -> (r: Self)
        ensures
            !r.locked(),
    {
        RawLock { lock: false }
    }

    /// create a new local mutex
    pub fn mutex<T>(value: T) -> (r: Mutex<T>)
        ensures
            !r.lock_view().locked(),
            r.value_view() == value,
    {
        crate::mutex::Mutex::from_raw_parts(crate::mutex::raw::Mutex::from_raw(Self::new()), value)
    }
}

impl crate::Init for RawLock {
    open spec fn is_init(&self) -> bool {
        !self.locked()
    }

    fn init() -> (r: Self) {
        RawLock { lock: false }
    }
}

impl crate::RawLockInfo for RawLock {
    type ExclusiveGuardTraits = ();
    type ShareGuardTraits = ();
}

impl crate::mutex::RawMutex for RawLock {
    proof fn lemma_init_available(&self) {
    }
}

impl RawExclusiveLock for RawLock {
    open spec fn exc_wf(&self) -> bool {
        true
    }

    open spec fn exc_count(&self) -> nat {
        if self.locked() { 1 } else { 0 }
    }

    open spec fn exc_available(&self) -> bool {
        !self.locked()
    }

    proof fn lemma_available_unheld(&self) {
    }

    /// Bumping leaves the lock word as it is
    open spec fn exc_bumped(&self) -> Self {
        *self
    }

    /// acquires the lock; locking a held local lock panics
    fn exc_lock(&mut self)
        ensures
            final(self).locked(),
    {
        let ok = self.exc_try_lock();
    }

    fn exc_try_lock(&mut self) -> (r: bool)
        ensures
            final(self).locked(),
    {
        let was_locked = self.lock;
        self.lock = true;
        !was_locked
    }

    fn exc_unlock(&mut self)
        ensures
            !final(self).locked(),
    {
        self.lock = false;
    }

    fn exc_bump(&mut self)
        ensures
            *final(self) == *old(self),
    {
    }
}

} // verus!
