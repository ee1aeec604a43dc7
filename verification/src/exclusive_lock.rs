//! Generic exclusive locks
//!
//! An *exc lock* is a single lock resource that keeps any other *exc lock*
//! (except one made with [`SplittableExclusiveLock::exc_split`]) from being
//! acquired. The traits below describe the lock words of such locks through two
//! spec functions: how many *exc locks* are held, and whether a new one can be
//! acquired right now.
use vstd::prelude::*;

pub mod guard;
pub mod raw;

pub use guard::ExclusiveGuard;
pub use raw::RawExclusiveGuard;

verus! {

/// A raw exclusive lock
pub trait RawExclusiveLock: Sized {
    /// Whether the lock word is in a state its operations can start from
    spec fn exc_wf(&self) -> bool;

    /// The number of *exc locks* currently held
    spec fn exc_count(&self) -> nat;

    /// Whether an *exc lock* can be acquired now without waiting
    spec fn exc_available(&self) -> bool;

    /// An *exc lock* can only be available while none is held
    proof fn lemma_available_unheld(&self)
        ensures
            self.exc_available() ==> self.exc_count() == 0,
    ;

    /// acquire an *exc lock*
    ///
    /// The lock must be available: on a held lock this would wait forever
    /// (or panic, for single threaded locks).
    fn exc_lock(&mut self)
        requires
            old(self).exc_wf(),
            old(self).exc_available(),
        ensures
            final(self).exc_wf(),
            final(self).exc_count() == old(self).exc_count() + 1,
    ;

    /// attempts to acquire an *exc lock*, returns true on success
    fn exc_try_lock(&mut self) -> (r: bool)
        requires
            old(self).exc_wf(),
        ensures
            final(self).exc_wf(),
            r == old(self).exc_available(),
            r ==> final(self).exc_count() == old(self).exc_count() + 1,
            !r ==> *final(self) == *old(self),
    ;

    /// releases an *exc lock*
    fn exc_unlock(&mut self)
        requires
            old(self).exc_wf(),
            old(self).exc_count() > 0,
        ensures
            final(self).exc_wf(),
            final(self).exc_count() == old(self).exc_count() - 1,
            final(self).exc_count() == 0 ==> final(self).exc_available(),
    ;

    /// The lock word after [`RawExclusiveLock::exc_bump`] from this one
    spec fn exc_bumped(&self) -> Self;

    /// Temporarily yields the lock to a waiting thread if there is one.
    fn exc_bump(&mut self)
        requires
            old(self).exc_wf(),
            old(self).exc_count() > 0,
        ensures
            final(self).exc_wf(),
            final(self).exc_count() == old(self).exc_count(),
            *final(self) == old(self).exc_bumped(),
    ;
}

/// Additional methods for `RawExclusiveLock` which support locking with timeouts.
///
/// Nothing else runs between the operations of a lock word, so a held lock is
/// never released while waiting: the timed attempts succeed exactly when the
/// lock is available. A failed attempt may still leave marks in the lock word
/// (a parking lock clears its park bit when its last waiter times out).
pub trait RawExclusiveLockTimed: RawExclusiveLock + crate::RawTimedLock {
    /// attempts to acquire an *exc lock* before the given instant
    fn exc_try_lock_until(&mut self, instant: Self::Instant) -> (r: bool)
        requires
            old(self).exc_wf(),
        ensures
            final(self).exc_wf(),
            r == old(self).exc_available(),
            r ==> final(self).exc_count() == old(self).exc_count() + 1,
            !r ==> final(self).exc_count() == old(self).exc_count(),
            !r ==> final(self).exc_available() == old(self).exc_available(),
    ;

    /// attempts to acquire an *exc lock* within the given duration
    fn exc_try_lock_for(&mut self, duration: Self::Duration) -> (r: bool)
        requires
            old(self).exc_wf(),
        ensures
            final(self).exc_wf(),
            r == old(self).exc_available(),
            r ==> final(self).exc_count() == old(self).exc_count() + 1,
            !r ==> final(self).exc_count() == old(self).exc_count(),
            !r ==> final(self).exc_available() == old(self).exc_available(),
    ;
}

/// Locks that can hold several *exc locks* at once, one per disjoint part of
/// the protected data
pub trait SplittableExclusiveLock: RawExclusiveLock {
    /// Whether one more *exc lock* fits in the lock word
    spec fn exc_split_room(&self) -> bool;

    /// acquires one more *exc lock* while one is already held
    fn exc_split(&mut self)
        requires
            old(self).exc_wf(),
            old(self).exc_count() > 0,
            old(self).exc_split_room(),
        ensures
            final(self).exc_wf(),
            final(self).exc_count() == old(self).exc_count() + 1,
    ;
}

/// Additional methods for locks which support fair unlocking.
///
/// Fair unlocking hands the lock directly to the next waiting thread if there
/// is one.
pub trait RawExclusiveLockFair: RawExclusiveLock {
    /// releases an *exc lock* using a fair unlock protocol
    fn exc_unlock_fair(&mut self)
        requires
            old(self).exc_wf(),
            old(self).exc_count() > 0,
        ensures
            final(self).exc_wf(),
            final(self).exc_count() == old(self).exc_count() - 1,
            final(self).exc_count() == 0 ==> final(self).exc_available(),
    ;

    /// The lock word after [`RawExclusiveLockFair::exc_bump_fair`] from this one
    spec fn exc_bumped_fair(&self) -> Self;

    /// Temporarily yields the lock to a waiting thread, fairly
    fn exc_bump_fair(&mut self)
        requires
            old(self).exc_wf(),
            old(self).exc_count() > 0,
        ensures
            final(self).exc_wf(),
            final(self).exc_count() == old(self).exc_count(),
            *final(self) == old(self).exc_bumped_fair(),
    ;
}

/// Additional methods for RwLocks which support atomically downgrading an
/// exclusive lock to a shared lock.
pub trait RawExclusiveLockDowngrade: RawExclusiveLock + crate::share_lock::RawShareLock {
    /// Atomically downgrades an *exc lock* to a *shr lock*
    ///
    /// This is equivalent to `exc_unlock` followed by `shr_lock`, but it is
    /// non-blocking, and no other lock can be taken in between.
    fn downgrade(&mut self)
        requires
            old(self).exc_wf(),
            old(self).shr_wf(),
            old(self).exc_count() > 0,
        ensures
            final(self).exc_wf(),
            final(self).shr_wf(),
            final(self).exc_count() == old(self).exc_count() - 1,
            final(self).shr_count() == old(self).shr_count() + 1,
    ;
}

/// While an *exc lock* is held, no other *exc lock* can be acquired without
/// waiting
pub proof fn held_lock_excludes<L: RawExclusiveLock>(lock: &L)
    requires
        lock.exc_count() > 0,
    ensures
        !lock.exc_available(),
{
    lock.lemma_available_unheld();
}

/// Acquiring an available lock and releasing that lock again leaves the lock
/// available, with no *exc lock* held: `held` is the lock after
/// [`RawExclusiveLock::exc_lock`] on `before`, `after` the lock after
/// [`RawExclusiveLock::exc_unlock`] on `held`
pub proof fn lock_unlock_frees<L: RawExclusiveLock>(before: &L, held: &L, after: &L)
    requires
        before.exc_available(),
        held.exc_count() == before.exc_count() + 1,
        after.exc_count() == held.exc_count() - 1,
        after.exc_count() == 0 ==> after.exc_available(),
    ensures
        after.exc_count() == 0,
        after.exc_available(),
{
    before.lemma_available_unheld();
}

} // verus!
