//! A lock that always unlocks fairly
use vstd::prelude::*;
use crate::exclusive_lock::{RawExclusiveLock, RawExclusiveLockDowngrade, RawExclusiveLockFair, SplittableExclusiveLock};
use crate::share_lock::{RawShareLock, RawShareLockFair};
use crate::mutex::RawMutex;
use crate::reentrant::RawReentrantMutex;
use crate::rwlock::RawRwLock;

verus! {

/// Wraps a lock so that every unlock and bump of it goes through the fair
/// protocol
pub struct Fair<L>(pub L);

impl<L: crate::Init> crate::Init for Fair<L> {
    open spec fn is_init(&self) -> bool {
        self.0.is_init()
    }

    fn init() -> (r: Self) {
        Fair(L::init())
    }
}

impl<L: crate::RawLockInfo> crate::RawLockInfo for Fair<L> {
    type ExclusiveGuardTraits = L::ExclusiveGuardTraits;
    type ShareGuardTraits = L::ShareGuardTraits;
}

impl<L: RawMutex + RawExclusiveLockFair> RawMutex for Fair<L> {
    proof fn lemma_init_available(&self) {
        self.0.lemma_init_available();
    }
}

impl<L: RawRwLock + RawExclusiveLockFair + RawShareLockFair> RawRwLock for Fair<L> {
    proof fn lemma_init_shr_available(&self) {
        self.0.lemma_init_shr_available();
    }

    proof fn lemma_rw_exclusion(&self) {
        self.0.lemma_rw_exclusion();
    }
}

impl<L: RawReentrantMutex + RawShareLockFair> RawReentrantMutex for Fair<L> {
    proof fn lemma_init_available(&self) {
        self.0.lemma_init_available();
    }

    proof fn lemma_holder_relocks(&self) {
        self.0.lemma_holder_relocks();
    }

    proof fn lemma_first_lock_has_room(&self) {
        self.0.lemma_first_lock_has_room();
    }
}

impl<L: RawExclusiveLockFair> RawExclusiveLock for Fair<L> {
    open spec fn exc_wf(&self) -> bool {
        self.0.exc_wf()
    }

    open spec fn exc_count(&self) -> nat {
        self.0.exc_count()
    }

    open spec fn exc_available(&self) -> bool {
        self.0.exc_available()
    }

    proof fn lemma_available_unheld(&self) {
        self.0.lemma_available_unheld();
    }

    /// Bumping goes through the fair protocol
    open spec fn exc_bumped(&self) -> Self {
        Fair(self.0.exc_bumped_fair())
    }

    fn exc_lock(&mut self) {
        self.0.exc_lock();
    }

    fn exc_try_lock(&mut self) -> (r: bool) {
        self.0.exc_try_lock()
    }

    /// releases the *exc lock* through the fair protocol
    fn exc_unlock(&mut self) {
        self.0.exc_unlock_fair();
    }

    /// yields the *exc lock* through the fair protocol
    fn exc_bump(&mut self) {
        self.0.exc_bump_fair();
    }
}

impl<L: RawExclusiveLockFair> RawExclusiveLockFair for Fair<L> {
    open spec fn exc_bumped_fair(&self) -> Self {
        Fair(self.0.exc_bumped_fair())
    }

    fn exc_unlock_fair(&mut self) {
        self.0.exc_unlock_fair();
    }

    fn exc_bump_fair(&mut self) {
        self.0.exc_bump_fair();
    }
}

impl<L: RawExclusiveLockDowngrade + RawExclusiveLockFair + RawShareLockFair> RawExclusiveLockDowngrade for Fair<L> {
    fn downgrade(&mut self) {
        self.0.downgrade();
    }
}

impl<L: SplittableExclusiveLock + RawExclusiveLockFair> SplittableExclusiveLock for Fair<L> {
    open spec fn exc_split_room(&self) -> bool {
        self.0.exc_split_room()
    }

    fn exc_split(&mut self) {
        self.0.exc_split();
    }
}

impl<L: RawShareLockFair> RawShareLock for Fair<L> {
    open spec fn shr_wf(&self) -> bool {
        self.0.shr_wf()
    }

    open spec fn shr_count(&self) -> nat {
        self.0.shr_count()
    }

    open spec fn shr_available(&self) -> bool {
        self.0.shr_available()
    }

    open spec fn shr_split_room(&self) -> bool {
        self.0.shr_split_room()
    }

    /// Bumping goes through the fair protocol
    open spec fn shr_bumped(&self) -> Self {
        Fair(self.0.shr_bumped_fair())
    }

    fn shr_lock(&mut self) {
        self.0.shr_lock();
    }

    fn shr_try_lock(&mut self) -> (r: bool) {
        self.0.shr_try_lock()
    }

    fn shr_split(&mut self) {
        self.0.shr_split();
    }

    /// releases the *shr lock* through the fair protocol
    fn shr_unlock(&mut self) {
        self.0.shr_unlock_fair();
    }

    /// yields the *shr lock* through the fair protocol
    fn shr_bump(&mut self) {
        self.0.shr_bump_fair();
    }
}

impl<L: RawShareLockFair> RawShareLockFair for Fair<L> {
    open spec fn shr_bumped_fair(&self) -> Self {
        Fair(self.0.shr_bumped_fair())
    }

    fn shr_unlock_fair(&mut self) {
        self.0.shr_unlock_fair();
    }

    fn shr_bump_fair(&mut self) {
        self.0.shr_bump_fair();
    }
}

} // verus!
