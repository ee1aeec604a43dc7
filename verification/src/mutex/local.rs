//! a local (single threaded) mutex lock
use vstd::prelude::*;
use crate::exclusive_lock::RawExclusiveLock;

verus! {

/// a local raw mutex
pub type RawMutex = crate::mutex::raw::Mutex<LocalLock>;

/// a local mutex
pub type Mutex<T> = crate::mutex::Mutex<LocalLock, T>;

/// a local (single threaded) mutex lock
pub struct LocalLock {
    lock: bool,
}

impl LocalLock {
    /// Whether the lock is held
    pub closed spec fn locked(&self) -> bool {
        self.lock
    }

    /// create a local mutex lock
    pub fn new() -> (r: Self)
        ensures
            !r.locked(),
    {
        LocalLock { lock: false }
    }

    /// create a new local raw mutex
    pub fn raw_mutex() -> (r: RawMutex)
        ensures
            !r.lock_view().locked(),
    {
        crate::mutex::raw::Mutex::from_raw(Self::new())
    }

    /// create a new local mutex
    pub fn mutex<T>(value: T) -> (r: Mutex<T>)
        ensures
            !r.lock_view().locked(),
            r.value_view() == value,
    {
        crate::mutex::Mutex::from_raw_parts(Self::raw_mutex(), value)
    }
}

impl crate::Init for LocalLock {
    open spec fn is_init(&self) -> bool {
        !self.locked()
    }

    fn init() -> (r: Self) {
        LocalLock { lock: false }
    }
}

impl crate::RawLockInfo for LocalLock {
    type ExclusiveGuardTraits = ();
    type ShareGuardTraits = ();
}

impl crate::mutex::RawMutex for LocalLock {
    proof fn lemma_init_available(&self) {
    }
}

impl RawExclusiveLock for LocalLock {
    open spec fn exc_wf(&self) -> bool {
        true
    }

    open spec fn exc_count(&self) -> nat {
        if self.locked() { 1 } else { 0 }
    }

    open spec fn exc_available(&self) -> bool {
        !self.locked()
    }

    proof fn lemma_available_unheld(&self) {
    }

    /// Bumping leaves the lock word as it is
    open spec fn exc_bumped(&self) -> Self {
        *self
    }

    /// acquires the lock; locking a held local lock panics
    fn exc_lock(&mut self)
        ensures
            final(self).locked(),
    {
        let ok = self.exc_try_lock();
    }

    fn exc_try_lock(&mut self) -> (r: bool)
        ensures
            final(self).locked(),
    {
        let was_locked = self.lock;
        self.lock = true;
        !was_locked
    }

    fn exc_unlock(&mut self)
        ensures
            !final(self).locked(),
    {
        self.lock = false;
    }

    fn exc_bump(&mut self)
        ensures
            *final(self) == *old(self),
    {
    }
}

} // verus!
