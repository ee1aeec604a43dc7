//! A lock that forwards to the lock it wraps, for checking code in debug builds
use vstd::prelude::*;
use crate::exclusive_lock::{RawExclusiveLock, RawExclusiveLockDowngrade, RawExclusiveLockFair, SplittableExclusiveLock};
use crate::share_lock::{RawShareLock, RawShareLockFair};
use crate::mutex::RawMutex;
use crate::remutex::RawReentrantMutex;
use crate::rwlock::RawRwLock;

verus! {

/// Wraps a lock and defers to it, as the debug build of a lock that the
/// release build would leave out
///
/// This is useful when the code needs performance but should still be easy to
/// check for locking mistakes. Its unlocks and bumps go through the fair
/// protocol of the wrapped lock.
pub struct DebugChecked<L> {
    inner: L,
}

impl<L> DebugChecked<L> {
    /// The wrapped lock
    pub closed spec fn inner_view(&self) -> L {
        self.inner
    }

    /// Wrap the given lock
    pub fn from_lock(inner: L) -> (r: Self)
        ensures
            r.inner_view() == inner,
    {
        DebugChecked { inner }
    }
}

impl<L: crate::Init> DebugChecked<L> {
    /// Wrap a new lock
    pub fn new() -> (r: Self)
        ensures
            r.inner_view().is_init(),
    {
        DebugChecked { inner: L::init() }
    }
}

impl<L: crate::Init> crate::Init for DebugChecked<L> {
    open spec fn is_init(&self) -> bool {
        self.inner_view().is_init()
    }

    fn init() -> (r: Self) {
        DebugChecked { inner: L::init() }
    }
}

impl<L: crate::RawLockInfo> crate::RawLockInfo for DebugChecked<L> {
    type ExclusiveGuardTraits = L::ExclusiveGuardTraits;
    type ShareGuardTraits = L::ShareGuardTraits;
}

impl<L: RawMutex + RawExclusiveLockFair> RawMutex for DebugChecked<L> {
    proof fn lemma_init_available(&self) {
        self.inner.lemma_init_available();
    }
}

impl<L: RawRwLock + RawExclusiveLockFair + RawShareLockFair> RawRwLock for DebugChecked<L> {
    proof fn lemma_init_shr_available(&self) {
        self.inner.lemma_init_shr_available();
    }

    proof fn lemma_rw_exclusion(&self) {
        self.inner.lemma_rw_exclusion();
    }
}

impl<L: RawReentrantMutex + RawShareLockFair> RawReentrantMutex for DebugChecked<L> {
    proof fn lemma_init_available(&self) {
        self.inner.lemma_init_available();
    }

    proof fn lemma_holder_relocks(&self) {
        self.inner.lemma_holder_relocks();
    }

    proof fn lemma_first_lock_has_room(&self) {
        self.inner.lemma_first_lock_has_room();
    }
}

impl<L: RawExclusiveLockFair> RawExclusiveLock for DebugChecked<L> {
    open spec fn exc_wf(&self) -> bool {
        self.inner_view().exc_wf()
    }

    open spec fn exc_count(&self) -> nat {
        self.inner_view().exc_count()
    }

    open spec fn exc_available(&self) -> bool {
        self.inner_view().exc_available()
    }

    proof fn lemma_available_unheld(&self) {
        self.inner.lemma_available_unheld();
    }

    /// Bumping goes through the fair protocol of the wrapped lock
    closed spec fn exc_bumped(&self) -> Self {
        DebugChecked { inner: self.inner.exc_bumped_fair() }
    }

    fn exc_lock(&mut self) {
        self.inner.exc_lock();
    }

    fn exc_try_lock(&mut self) -> (r: bool) {
        self.inner.exc_try_lock()
    }

    fn exc_unlock(&mut self) {
        self.inner.exc_unlock_fair();
    }

    fn exc_bump(&mut self) {
        self.inner.exc_bump_fair();
    }
}

impl<L: RawExclusiveLockFair> RawExclusiveLockFair for DebugChecked<L> {
    closed spec fn exc_bumped_fair(&self) -> Self {
        DebugChecked { inner: self.inner.exc_bumped_fair() }
    }

    fn exc_unlock_fair(&mut self) {
        self.inner.exc_unlock_fair();
    }

    fn exc_bump_fair(&mut self) {
        self.inner.exc_bump_fair();
    }
}

impl<L: RawExclusiveLockDowngrade + RawExclusiveLockFair + RawShareLockFair> RawExclusiveLockDowngrade for DebugChecked<L> {
    fn downgrade(&mut self) {
        self.inner.downgrade();
    }
}

impl<L: SplittableExclusiveLock + RawExclusiveLockFair> SplittableExclusiveLock for DebugChecked<L> {
    open spec fn exc_split_room(&self) -> bool {
        self.inner_view().exc_split_room()
    }

    fn exc_split(&mut self) {
        self.inner.exc_split();
    }
}

impl<L: RawShareLockFair> RawShareLock for DebugChecked<L> {
    open spec fn shr_wf(&self) -> bool {
        self.inner_view().shr_wf()
    }

    open spec fn shr_count(&self) -> nat {
        self.inner_view().shr_count()
    }

    open spec fn shr_available(&self) -> bool {
        self.inner_view().shr_available()
    }

    open spec fn shr_split_room(&self) -> bool {
        self.inner_view().shr_split_room()
    }

    /// Bumping goes through the fair protocol of the wrapped lock
    closed spec fn shr_bumped(&self) -> Self {
        DebugChecked { inner: self.inner.shr_bumped_fair() }
    }

    fn shr_lock(&mut self) {
        self.inner.shr_lock();
    }

    fn shr_try_lock(&mut self) -> (r: bool) {
        self.inner.shr_try_lock()
    }

    fn shr_split(&mut self) {
        self.inner.shr_split();
    }

    fn shr_unlock(&mut self) {
        self.inner.shr_unlock_fair();
    }

    fn shr_bump(&mut self) {
        self.inner.shr_bump_fair();
    }
}

impl<L: RawShareLockFair> RawShareLockFair for DebugChecked<L> {
    closed spec fn shr_bumped_fair(&self) -> Self {
        DebugChecked { inner: self.inner.shr_bumped_fair() }
    }

    fn shr_unlock_fair(&mut self) {
        self.inner.shr_unlock_fair();
    }

    fn shr_bump_fair(&mut self) {
        self.inner.shr_bump_fair();
    }
}

} // verus!
