//! Generic shared locks
//!
//! A *shr lock* is a lock resource that can be held many times at once; it
//! keeps *exc locks* out while it is held. The traits below describe the lock
//! words of such locks through how many *shr locks* are held and whether one
//! more can be acquired right now.
use vstd::prelude::*;

pub mod raw;

pub use raw::{RawShareGuard, ShareGuard};

verus! {

/// A raw shared lock
pub trait RawShareLock: Sized {
    /// Whether the lock word is in a state its operations can start from
    spec fn shr_wf(&self) -> bool;

    /// The number of *shr locks* currently held
    spec fn shr_count(&self) -> nat;

    /// Whether a *shr lock* can be acquired now without waiting
    spec fn shr_available(&self) -> bool;

    /// Whether one more *shr lock* fits in the lock word
    spec fn shr_split_room(&self) -> bool;

    /// acquire a *shr lock*
    ///
    /// The lock must be available: otherwise this would wait forever.
    fn shr_lock(&mut self)
        requires
            old(self).shr_wf(),
            old(self).shr_available(),
        ensures
            final(self).shr_wf(),
            final(self).shr_count() == old(self).shr_count() + 1,
    ;

    /// attempts to acquire a *shr lock*, returns true on success
    fn shr_try_lock(&mut self) -> (r: bool)
        requires
            old(self).shr_wf(),
        ensures
            final(self).shr_wf(),
            r == old(self).shr_available(),
            r ==> final(self).shr_count() == old(self).shr_count() + 1,
            !r ==> *final(self) == *old(self),
    ;

    /// acquires one more *shr lock* while one is already held
    fn shr_split(&mut self)
        requires
            old(self).shr_wf(),
            old(self).shr_count() > 0,
            old(self).shr_split_room(),
        ensures
            final(self).shr_wf(),
            final(self).shr_count() == old(self).shr_count() + 1,
    ;

    /// releases a *shr lock*
    fn shr_unlock(&mut self)
        requires
            old(self).shr_wf(),
            old(self).shr_count() > 0,
        ensures
            final(self).shr_wf(),
            final(self).shr_count() == old(self).shr_count() - 1,
            final(self).shr_count() == 0 ==> final(self).shr_available(),
    ;

    /// The lock word after [`RawShareLock::shr_bump`] from this one
    spec fn shr_bumped(&self) -> Self;

    /// Temporarily yields the lock to a waiting thread if there is one.
    fn shr_bump(&mut self)
        requires
            old(self).shr_wf(),
            old(self).shr_count() > 0,
        ensures
            final(self).shr_wf(),
            final(self).shr_count() == old(self).shr_count(),
            *final(self) == old(self).shr_bumped(),
    ;
}

/// Additional methods for shared locks which support fair unlocking.
pub trait RawShareLockFair: RawShareLock {
    /// releases a *shr lock* using a fair unlock protocol
    fn shr_unlock_fair(&mut self)
        requires
            old(self).shr_wf(),
            old(self).shr_count() > 0,
        ensures
            final(self).shr_wf(),
            final(self).shr_count() == old(self).shr_count() - 1,
            final(self).shr_count() == 0 ==> final(self).shr_available(),
    ;

    /// The lock word after [`RawShareLockFair::shr_bump_fair`] from this one
    spec fn shr_bumped_fair(&self) -> Self;

    /// Temporarily yields the lock to a waiting thread, fairly
    fn shr_bump_fair(&mut self)
        requires
            old(self).shr_wf(),
            old(self).shr_count() > 0,
        ensures
            final(self).shr_wf(),
            final(self).shr_count() == old(self).shr_count(),
            *final(self) == old(self).shr_bumped_fair(),
    ;
}

/// Additional methods for shared locks which support locking with timeouts.
///
/// Nothing else runs between the operations of a lock word, so a held lock is
/// never released while waiting: the timed attempts succeed exactly when the
/// lock is available.
pub trait RawShareLockTimed: RawShareLock + crate::RawTimedLock {
    /// attempts to acquire a *shr lock* before the given instant
    fn shr_try_lock_until(&mut self, instant: Self::Instant) -> (r: bool)
        requires
            old(self).shr_wf(),
        ensures
            final(self).shr_wf(),
            r == old(self).shr_available(),
            r ==> final(self).shr_count() == old(self).shr_count() + 1,
            !r ==> final(self).shr_count() == old(self).shr_count(),
            !r ==> final(self).shr_available() == old(self).shr_available(),
    ;

    /// attempts to acquire a *shr lock* within the given duration
    fn shr_try_lock_for(&mut self, duration: Self::Duration) -> (r: bool)
        requires
            old(self).shr_wf(),
        ensures
            final(self).shr_wf(),
            r == old(self).shr_available(),
            r ==> final(self).shr_count() == old(self).shr_count() + 1,
            !r ==> final(self).shr_count() == old(self).shr_count(),
            !r ==> final(self).shr_available() == old(self).shr_available(),
    ;
}

/// Acquiring a *shr lock* on a lock that holds none, and releasing it again,
/// leaves the lock available with no *shr lock* held: `held` is the lock after
/// [`RawShareLock::shr_lock`] on `before`, `after` the lock after
/// [`RawShareLock::shr_unlock`] on `held`
pub proof fn shr_lock_unlock_frees<L: RawShareLock>(before: &L, held: &L, after: &L)
    requires
        before.shr_count() == 0,
        held.shr_count() == before.shr_count() + 1,
        after.shr_count() == held.shr_count() - 1,
        after.shr_count() == 0 ==> after.shr_available(),
    ensures
        after.shr_count() == 0,
        after.shr_available(),
{
}

} // verus!
