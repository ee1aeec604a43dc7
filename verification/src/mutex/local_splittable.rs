//! a local (single-threaded) splittable lock
use vstd::prelude::*;
use crate::exclusive_lock::{RawExclusiveLock, SplittableExclusiveLock};

verus! {

/// a local (single-threaded) splittable raw mutex
pub type RawMutex = crate::mutex::raw::Mutex<LocalSplitLock>;

/// a local (single-threaded) splittable mutex
pub type Mutex<T> = crate::mutex::Mutex<LocalSplitLock, T>;

/// a local (single-threaded) splittable lock: it counts the *exc locks* held
pub struct LocalSplitLock {
    lock_count: usize,
}

impl LocalSplitLock {
    /// The number of *exc locks* held
    pub closed spec fn count(&self) -> nat {
        self.lock_count as nat
    }

    /// create a new local (single-threaded) splittable lock
    pub fn new() -> (r: Self)
        ensures
            r.count() == 0,
    {
        LocalSplitLock { lock_count: 0 }
    }

    /// create a new local splittable raw mutex
    pub fn raw_mutex() -> (r: RawMutex)
        ensures
            r.lock_view().count() == 0,
    {
        crate::mutex::raw::Mutex::from_raw(Self::new())
    }

    /// create a new local splittable mutex
    pub fn mutex<T>(value: T) -> (r: Mutex<T>)
        ensures
            r.lock_view().count() == 0,
            r.value_view() == value,
    {
        crate::mutex::Mutex::from_raw_parts(Self::raw_mutex(), value)
    }
}

impl crate::Init for LocalSplitLock {
    open spec fn is_init(&self) -> bool {
        self.count() == 0
    }

    fn init() -> (r: Self) {
        LocalSplitLock { lock_count: 0 }
    }
}

impl crate::RawLockInfo for LocalSplitLock {
    type ExclusiveGuardTraits = ();
    type ShareGuardTraits = ();
}

impl crate::mutex::RawMutex for LocalSplitLock {
    proof fn lemma_init_available(&self) {
    }
}

impl RawExclusiveLock for LocalSplitLock {
    open spec fn exc_wf(&self) -> bool {
        true
    }

    open spec fn exc_count(&self) -> nat {
        self.count()
    }

    open spec fn exc_available(&self) -> bool {
        self.count() == 0
    }

    proof fn lemma_available_unheld(&self) {
    }

    /// Bumping leaves the lock word as it is
    open spec fn exc_bumped(&self) -> Self {
        *self
    }

    /// acquires the lock; locking a held local lock panics
    fn exc_lock(&mut self)
        ensures
            final(self).count() == 1,
    {
        let ok = self.exc_try_lock();
    }

    fn exc_try_lock(&mut self) -> (r: bool)
        ensures
            r ==> final(self).count() == 1,
    {
        if self.lock_count == 0 {
            self.lock_count = 1;
            true
        } else {
            false
        }
    }

    fn exc_unlock(&mut self) {
        self.lock_count = self.lock_count - 1;
    }

    fn exc_bump(&mut self)
        ensures
            *final(self) == *old(self),
    {
    }
}

impl SplittableExclusiveLock for LocalSplitLock {
    open spec fn exc_split_room(&self) -> bool {
        self.count() < usize::MAX
    }

    /// splitting a lock that already counts `usize::MAX` locks panics
    fn exc_split(&mut self) {
        self.lock_count = self.lock_count + 1;
    }
}

} // verus!
