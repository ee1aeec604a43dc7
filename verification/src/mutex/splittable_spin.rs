//! a splittable spin lock
use vstd::prelude::*;
use crate::exclusive_lock::{RawExclusiveLock, SplittableExclusiveLock};

verus! {

/// a splittable spin raw mutex
///
/// This lock can hold several exclusive locks at the same time, one for each
/// disjoint part of the protected data.
pub type RawMutex = crate::mutex::raw::Mutex<SplitSpinLock>;

/// a splittable spin mutex
pub type Mutex<T> = crate::mutex::Mutex<SplitSpinLock, T>;

/// a splittable spin lock: its word counts the *exc locks* held
pub struct SplitSpinLock {
    state: usize,
}

impl SplitSpinLock {
    /// The number of *exc locks* held
    pub closed spec fn count(&self) -> nat {
        self.state as nat
    }

    /// create a new splittable spin lock
    pub fn new() -> (r: Self)
        ensures
            r.count() == 0,
    {
        SplitSpinLock { state: 0 }
    }

    /// create a new splittable raw mutex
    pub fn raw_mutex() -> (r: RawMutex)
        ensures
            r.lock_view().count() == 0,
    {
        crate::mutex::raw::Mutex::from_raw(Self::new())
    }

    /// create a new splittable mutex
    pub fn mutex<T>(value: T) -> (r: Mutex<T>)
        ensures
            r.lock_view().count() == 0,
            r.value_view() == value,
    {
        crate::mutex::Mutex::from_raw_parts(Self::raw_mutex(), value)
    }
}

impl crate::Init for SplitSpinLock {
    open spec fn is_init(&self) -> bool {
        self.count() == 0
    }

    fn init() -> (r: Self) {
        SplitSpinLock { state: 0 }
    }
}

impl crate::RawLockInfo for SplitSpinLock {
    type ExclusiveGuardTraits = ();
    type ShareGuardTraits = ();
}

impl crate::mutex::RawMutex for SplitSpinLock {
    proof fn lemma_init_available(&self) {
    }
}

impl RawExclusiveLock for SplitSpinLock {
    open spec fn exc_wf(&self) -> bool {
        true
    }

    open spec fn exc_count(&self) -> nat {
        self.count()
    }

    open spec fn exc_available(&self) -> bool {
        self.count() == 0
    }

    proof fn lemma_available_unheld(&self) {
    }

    /// Bumping leaves the lock word as it is
    open spec fn exc_bumped(&self) -> Self {
        *self
    }

    fn exc_lock(&mut self)
        ensures
            final(self).count() == 1,
    {
        let ok = self.exc_try_lock();
    }

    fn exc_try_lock(&mut self) -> (r: bool)
        ensures
            r ==> final(self).count() == 1,
    {
        if self.state == 0 {
            self.state = 1;
            true
        } else {
            false
        }
    }

    fn exc_unlock(&mut self) {
        self.state = self.state - 1;
    }

    fn exc_bump(&mut self)
        ensures
            *final(self) == *old(self),
    {
    }
}

impl SplittableExclusiveLock for SplitSpinLock {
    open spec fn exc_split_room(&self) -> bool {
        self.count() < usize::MAX
    }

    fn exc_split(&mut self) {
        self.state = self.state + 1;
    }
}

} // verus!
