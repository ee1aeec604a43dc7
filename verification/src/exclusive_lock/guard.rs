//! A guard that gives exclusive access to the data protected by a lock
use vstd::prelude::*;
use crate::exclusive_lock::{RawExclusiveGuard, RawExclusiveLock, RawExclusiveLockDowngrade, RawExclusiveLockFair};
use crate::share_lock::{RawShareLock, ShareGuard};

verus! {

/// RAII structure that holds an *exc lock* together with the data it protects.
pub struct ExclusiveGuard<'a, L, T> {
    /// The raw guard holding the *exc lock*
    pub raw: RawExclusiveGuard<'a, L>,
    /// The protected value
    pub value: &'a mut T,
}

impl<'a, L: RawExclusiveLock, T> ExclusiveGuard<'a, L, T> {
    /// The guarded value as it stands now
    pub open spec fn value_view(&self) -> T {
        *self.value
    }

    /// Create a new guard from the given raw guard and value
    pub fn from_raw_parts(raw: RawExclusiveGuard<'a, L>, value: &'a mut T) -> (r: Self)
        ensures
            r.raw == raw,
            r.value_view() == *old(value),
            *final(r.value) == *final(value),
    {
        ExclusiveGuard { raw, value }
    }

    /// The inner `RawExclusiveGuard`
    pub fn raw(g: &Self) -> (r: &RawExclusiveGuard<'a, L>)
        ensures
            *r == g.raw,
    {
        &g.raw
    }

    /// Decomposes the `ExclusiveGuard` into its raw guard and the guarded value
    pub fn into_raw_parts(g: Self) -> (r: (RawExclusiveGuard<'a, L>, &'a mut T))
        ensures
            r.0 == g.raw,
            *r.1 == g.value_view(),
            *final(r.1) == *final(g.value),
    {
        (g.raw, g.value)
    }

    /// The guarded value
    pub fn get(&self) -> (r: &T)
        ensures
            *r == self.value_view(),
    {
        &*self.value
    }

    /// Replace the guarded value, returning the old one
    pub fn replace(&mut self, value: T) -> (r: T)
        ensures
            r == old(self).value_view(),
            final(self).value_view() == value,
            final(self).raw == old(self).raw,
            *final(final(self).value) == *final(old(self).value),
    {
        let mut v = value;
        core::mem::swap(self.value, &mut v);
        v
    }

    /// Makes a guard for a component of the locked data: `f` picks the
    /// component, and the new guard holds the same *exc lock*
    pub fn map<U, F: FnOnce(&'a mut T) -> &'a mut U>(g: Self, f: F) -> (r: ExclusiveGuard<'a, L, U>)
        requires
            forall|x: &'a mut T| *x == g.value_view() ==> #[trigger] f.requires((x,)),
        ensures
            r.raw == g.raw,
            exists|x: &'a mut T, y: &'a mut U| *x == g.value_view() && #[trigger] f.ensures((x,), y)
                && *y == r.value_view() && *final(x) == *final(g.value) && *final(y) == *final(r.value),
    {
        let ghost before: T = g.value_view();
        let value: &'a mut T = g.value;
        let v = f(value);
        let ghost after: U = *v;
        assert(exists|x: &'a mut T, y: &'a mut U| #[trigger] f.ensures((x,), y) && *x == before && *y == after
            && *final(x) == *final(value) && *final(y) == *final(v));
        ExclusiveGuard { raw: g.raw, value: v }
    }

    /// Attempts to make a guard for a component of the locked data; when `f`
    /// fails it hands the data back with its error, and the guard is returned
    /// with the error
    pub fn try_map<U, E, F: FnOnce(&'a mut T) -> Result<&'a mut U, (E, &'a mut T)>>(g: Self, f: F)
        -> (r: Result<ExclusiveGuard<'a, L, U>, crate::TryMapError<E, Self>>)
        requires
            forall|x: &'a mut T| *x == g.value_view() ==> #[trigger] f.requires((x,)),
        ensures
            r is Ok ==> r->Ok_0.raw == g.raw,
            r is Err ==> r->Err_0.1.raw == g.raw,
            exists|x: &'a mut T, y: Result<&'a mut U, (E, &'a mut T)>| *x == g.value_view() && #[trigger] f.ensures((x,), y)
                && *final(x) == *final(g.value)
                && (y matches Ok(u) ==> r is Ok && *u == r->Ok_0.value_view() && *final(u) == *final(r->Ok_0.value))
                && (y matches Err(p) ==> r is Err && r->Err_0.0 == p.0 && *p.1 == r->Err_0.1.value_view()
                    && *final(p.1) == *final(r->Err_0.1.value)),
    {
        let value: &'a mut T = g.value;
        let raw = g.raw;
        let res = f(value);
        match res {
            Ok(v) => Ok(ExclusiveGuard { raw, value: v }),
            Err((e, back)) => {
                Err(crate::TryMapError(e, ExclusiveGuard { raw, value: back }))
            },
        }
    }

    /// Temporarily yields the lock to another thread if there is one.
    pub fn bump(g: &mut Self)
        requires
            old(g).raw.lock_view().exc_wf(),
            old(g).raw.lock_view().exc_count() > 0,
        ensures
            final(g).raw.lock_view().exc_wf(),
            final(g).raw.lock_view().exc_count() == old(g).raw.lock_view().exc_count(),
            *final(final(g).raw.lock) == *final(old(g).raw.lock),
            final(g).value == old(g).value,
            final(g).raw.lock_view() == old(g).raw.lock_view().exc_bumped(),
    {
        g.raw.bump();
    }

    /// Temporarily unlocks the lock to execute the given function.
    ///
    /// The guard's *exc lock* is the only one held; `f` is handed the released
    /// lock, which holds no *exc lock* and is available, and the lock is taken
    /// again once `f` has run.
    pub fn unlocked<R, F: FnOnce(&L) -> R>(g: &mut Self, f: F) -> (r: R)
        requires
            old(g).raw.lock_view().exc_wf(),
            old(g).raw.lock_view().exc_count() == 1,
            forall|l: &L| l.exc_wf() && l.exc_count() == 0 && l.exc_available() ==> #[trigger] f.requires((l,)),
        ensures
            exists|l: &L| l.exc_wf() && l.exc_count() == 0 && l.exc_available() && #[trigger] f.ensures((l,), r),
            final(g).raw.lock_view().exc_wf(),
            final(g).raw.lock_view().exc_count() == 1,
            *final(final(g).raw.lock) == *final(old(g).raw.lock),
            final(g).value == old(g).value,
    {
        g.raw.lock.exc_unlock();
        let released: &L = &*g.raw.lock;
        let r = f(released);
        proof {
            assert(f.ensures((released,), r));
        }
        g.raw.lock.exc_lock();
        r
    }

    /// Release the *exc lock*
    pub fn unlock(g: Self)
        requires
            g.raw.lock_view().exc_wf(),
            g.raw.lock_view().exc_count() > 0,
        ensures
            final(g.raw.lock).exc_wf(),
            final(g.raw.lock).exc_count() == g.raw.lock_view().exc_count() - 1,
            final(g.raw.lock).exc_count() == 0 ==> final(g.raw.lock).exc_available(),
            *final(g.value) == g.value_view(),
    {
        g.raw.unlock();
    }
}

impl<'a, L: RawExclusiveLockFair, T> ExclusiveGuard<'a, L, T> {
    /// Unlocks the guard using a fair unlocking protocol
    pub fn unlock_fair(g: Self)
        requires
            g.raw.lock_view().exc_wf(),
            g.raw.lock_view().exc_count() > 0,
        ensures
            final(g.raw.lock).exc_wf(),
            final(g.raw.lock).exc_count() == g.raw.lock_view().exc_count() - 1,
            final(g.raw.lock).exc_count() == 0 ==> final(g.raw.lock).exc_available(),
            *final(g.value) == g.value_view(),
    {
        g.raw.unlock_fair();
    }

    /// Temporarily yields the lock to a waiting thread if there is one.
    pub fn bump_fair(g: &mut Self)
        requires
            old(g).raw.lock_view().exc_wf(),
            old(g).raw.lock_view().exc_count() > 0,
        ensures
            final(g).raw.lock_view().exc_wf(),
            final(g).raw.lock_view().exc_count() == old(g).raw.lock_view().exc_count(),
            *final(final(g).raw.lock) == *final(old(g).raw.lock),
            final(g).value == old(g).value,
            final(g).raw.lock_view() == old(g).raw.lock_view().exc_bumped_fair(),
    {
        g.raw.bump_fair();
    }

    /// Temporarily unlocks the lock, with a fair unlock protocol, to execute
    /// the given function, which is handed the released lock.
    pub fn unlocked_fair<R, F: FnOnce(&L) -> R>(g: &mut Self, f: F) -> (r: R)
        requires
            old(g).raw.lock_view().exc_wf(),
            old(g).raw.lock_view().exc_count() == 1,
            forall|l: &L| l.exc_wf() && l.exc_count() == 0 && l.exc_available() ==> #[trigger] f.requires((l,)),
        ensures
            exists|l: &L| l.exc_wf() && l.exc_count() == 0 && l.exc_available() && #[trigger] f.ensures((l,), r),
            final(g).raw.lock_view().exc_wf(),
            final(g).raw.lock_view().exc_count() == 1,
            *final(final(g).raw.lock) == *final(old(g).raw.lock),
            final(g).value == old(g).value,
    {
        g.raw.lock.exc_unlock_fair();
        let released: &L = &*g.raw.lock;
        let r = f(released);
        proof {
            assert(f.ensures((released,), r));
        }
        g.raw.lock.exc_lock();
        r
    }
}

impl<'a, L: RawExclusiveLockDowngrade, T> ExclusiveGuard<'a, L, T> {
    /// Atomically downgrades the guard's *exc lock* to a *shr lock*
    pub fn downgrade(g: Self) -> (r: ShareGuard<L, T>)
        requires
            g.raw.lock_view().exc_wf(),
            g.raw.lock_view().shr_wf(),
            g.raw.lock_view().exc_count() > 0,
        ensures
            final(g.raw.lock).exc_wf(),
            final(g.raw.lock).shr_wf(),
            final(g.raw.lock).exc_count() == g.raw.lock_view().exc_count() - 1,
            final(g.raw.lock).shr_count() == g.raw.lock_view().shr_count() + 1,
            *final(g.value) == g.value_view(),
    {
        ShareGuard::from_raw_parts(g.raw.downgrade())
    }
}

} // verus!
