//! A raw guard that owns one *exc lock*
use vstd::prelude::*;
use crate::exclusive_lock::{RawExclusiveLock, RawExclusiveLockDowngrade, RawExclusiveLockFair};
use crate::share_lock::{RawShareGuard, RawShareLock};

verus! {

/// A scoped exclusive lock
///
/// This type represents an *exc lock*: while it is alive the lock it borrows
/// holds an *exc lock* that belongs to this guard. [`RawExclusiveGuard::unlock`]
/// releases it.
pub struct RawExclusiveGuard<'a, L> {
    /// The lock that holds the guard's *exc lock*
    pub lock: &'a mut L,
}

impl<'a, L: RawExclusiveLock> RawExclusiveGuard<'a, L> {
    /// The lock word as it stands now
    pub open spec fn lock_view(&self) -> L {
        *self.lock
    }

    /// Wrap a lock that already holds an *exc lock*
    pub fn from_raw(lock: &'a mut L) -> (r: Self)
        requires
            old(lock).exc_wf(),
            old(lock).exc_count() > 0,
        ensures
            r.lock_view() == *old(lock),
            *final(r.lock) == *final(lock),
    {
        RawExclusiveGuard { lock }
    }

    /// Create a new `RawExclusiveGuard`, acquiring an *exc lock*
    pub fn new(lock: &'a mut L) -> (r: Self)
        requires
            old(lock).exc_wf(),
            old(lock).exc_available(),
        ensures
            r.lock_view().exc_wf(),
            r.lock_view().exc_count() == old(lock).exc_count() + 1,
            *final(r.lock) == *final(lock),
    {
        lock.exc_lock();
        RawExclusiveGuard { lock }
    }

    /// Try to create a new `RawExclusiveGuard`
    pub fn try_new(lock: &'a mut L) -> (r: Option<Self>)
        requires
            old(lock).exc_wf(),
        ensures
            r is Some <==> old(lock).exc_available(),
            r matches Some(g) ==> g.lock_view().exc_wf() && g.lock_view().exc_count() == old(lock).exc_count() + 1
                && *final(g.lock) == *final(lock),
            r is None ==> *final(lock) == *old(lock),
    {
        if lock.exc_try_lock() {
            Some(RawExclusiveGuard { lock })
        } else {
            None
        }
    }

    /// Temporarily yields the lock to another thread if there is one.
    pub fn bump(&mut self)
        requires
            old(self).lock_view().exc_wf(),
            old(self).lock_view().exc_count() > 0,
        ensures
            final(self).lock_view().exc_wf(),
            final(self).lock_view().exc_count() == old(self).lock_view().exc_count(),
            *final(final(self).lock) == *final(old(self).lock),
            final(self).lock_view() == old(self).lock_view().exc_bumped(),
    {
        self.lock.exc_bump();
    }

    /// Temporarily releases the *exc lock* to execute `f`, which is handed the
    /// released lock: it holds no *exc lock* and is available. The lock is
    /// taken again once `f` has run.
    pub fn unlocked<R, F: FnOnce(&L) -> R>(&mut self, f: F) -> (r: R)
        requires
            old(self).lock_view().exc_wf(),
            old(self).lock_view().exc_count() == 1,
            forall|l: &L| l.exc_wf() && l.exc_count() == 0 && l.exc_available() ==> #[trigger] f.requires((l,)),
        ensures
            exists|l: &L| l.exc_wf() && l.exc_count() == 0 && l.exc_available() && #[trigger] f.ensures((l,), r),
            final(self).lock_view().exc_wf(),
            final(self).lock_view().exc_count() == 1,
            *final(final(self).lock) == *final(old(self).lock),
    {
        self.lock.exc_unlock();
        let released: &L = &*self.lock;
        let r = f(released);
        proof {
            assert(f.ensures((released,), r));
        }
        self.lock.exc_lock();
        r
    }

    /// The inner lock
    pub fn inner(&self) -> (r: &L)
        ensures
            *r == self.lock_view(),
    {
        self.lock
    }

    /// Consume the guard without releasing the lock
    pub fn into_inner(self) -> (r: &'a L)
        ensures
            *r == self.lock_view(),
            *final(self.lock) == self.lock_view(),
    {
        self.lock
    }

    /// Release the *exc lock*
    pub fn unlock(self)
        requires
            self.lock_view().exc_wf(),
            self.lock_view().exc_count() > 0,
        ensures
            final(self.lock).exc_wf(),
            final(self.lock).exc_count() == self.lock_view().exc_count() - 1,
            final(self.lock).exc_count() == 0 ==> final(self.lock).exc_available(),
    {
        self.lock.exc_unlock();
    }
}

impl<'a, L: RawExclusiveLockFair> RawExclusiveGuard<'a, L> {
    /// Unlocks the guard using a fair unlocking protocol
    pub fn unlock_fair(self)
        requires
            self.lock_view().exc_wf(),
            self.lock_view().exc_count() > 0,
        ensures
            final(self.lock).exc_wf(),
            final(self.lock).exc_count() == self.lock_view().exc_count() - 1,
            final(self.lock).exc_count() == 0 ==> final(self.lock).exc_available(),
    {
        self.lock.exc_unlock_fair();
    }

    /// Temporarily releases the *exc lock* to execute `f`, which is handed the
    /// released lock: it holds no *exc lock* and is available. The lock is
    /// taken again once `f` has run.
    pub fn unlocked_fair<R, F: FnOnce(&L) -> R>(&mut self, f: F) -> (r: R)
        requires
            old(self).lock_view().exc_wf(),
            old(self).lock_view().exc_count() == 1,
            forall|l: &L| l.exc_wf() && l.exc_count() == 0 && l.exc_available() ==> #[trigger] f.requires((l,)),
        ensures
            exists|l: &L| l.exc_wf() && l.exc_count() == 0 && l.exc_available() && #[trigger] f.ensures((l,), r),
            final(self).lock_view().exc_wf(),
            final(self).lock_view().exc_count() == 1,
            *final(final(self).lock) == *final(old(self).lock),
    {
        self.lock.exc_unlock_fair();
        let released: &L = &*self.lock;
        let r = f(released);
        proof {
            assert(f.ensures((released,), r));
        }
        self.lock.exc_lock();
        r
    }

    /// Temporarily yields the lock to a waiting thread if there is one.
    pub fn bump_fair(&mut self)
        requires
            old(self).lock_view().exc_wf(),
            old(self).lock_view().exc_count() > 0,
        ensures
            final(self).lock_view().exc_wf(),
            final(self).lock_view().exc_count() == old(self).lock_view().exc_count(),
            *final(final(self).lock) == *final(old(self).lock),
            final(self).lock_view() == old(self).lock_view().exc_bumped_fair(),
    {
        self.lock.exc_bump_fair();
    }
}

impl<'a, L: RawExclusiveLockDowngrade> RawExclusiveGuard<'a, L> {
    /// Atomically downgrades the guard's *exc lock* to a *shr lock*
    pub fn downgrade(self) -> (r: RawShareGuard<L>)
        requires
            self.lock_view().exc_wf(),
            self.lock_view().shr_wf(),
            self.lock_view().exc_count() > 0,
        ensures
            final(self.lock).exc_wf(),
            final(self.lock).shr_wf(),
            final(self.lock).exc_count() == self.lock_view().exc_count() - 1,
            final(self.lock).shr_count() == self.lock_view().shr_count() + 1,
    {
        self.lock.downgrade();
        RawShareGuard::from_raw()
    }
}

} // verus!
