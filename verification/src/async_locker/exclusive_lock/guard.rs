//! A guard that gives exclusive access to the data protected by an
//! asynchronous lock
use vstd::prelude::*;
use crate::async_locker::{woke_one, WakerSet};
use crate::async_locker::exclusive_lock::RawExclusiveGuard;
use crate::exclusive_lock::{RawExclusiveLock, RawExclusiveLockDowngrade};
use crate::share_lock::RawShareLock;

verus! {

/// An *exc lock* of an asynchronous lock together with the data it protects
pub struct ExclusiveGuard<'a, L, W, T> {
    /// The raw guard holding the *exc lock*
    pub raw: RawExclusiveGuard<'a, L, W>,
    /// The protected value
    pub value: &'a mut T,
}

impl<'a, L: RawExclusiveLock, W: WakerSet, T> ExclusiveGuard<'a, L, W, T> {
    /// The guarded value as it stands now
    pub open spec fn value_view(&self) -> T {
        *self.value
    }

    /// A guard from a raw guard and the value it protects
    pub fn from_raw_parts(raw: RawExclusiveGuard<'a, L, W>, value: &'a mut T) -> (r: Self)
        ensures
            r.raw == raw,
            r.value_view() == *old(value),
            *final(r.value) == *final(value),
    {
        ExclusiveGuard { raw, value }
    }

    /// The raw guard
    pub fn raw(&self) -> (r: &RawExclusiveGuard<'a, L, W>)
        ensures
            *r == self.raw,
    {
        &self.raw
    }

    /// Decomposes the guard into its raw guard and the guarded value
    pub fn into_raw_parts(self) -> (r: (RawExclusiveGuard<'a, L, W>, &'a mut T))
        ensures
            r.0 == self.raw,
            *r.1 == self.value_view(),
            *final(r.1) == *final(self.value),
    {
        (self.raw, self.value)
    }

    /// Makes a guard for a component of the locked data: `f` picks the
    /// component, and the new guard holds the same *exc lock*
    pub fn map<U, F: FnOnce(&'a mut T) -> &'a mut U>(g: Self, f: F) -> (r: ExclusiveGuard<'a, L, W, U>)
        requires
            forall|x: &'a mut T| *x == g.value_view() ==> #[trigger] f.requires((x,)),
        ensures
            r.raw == g.raw,
            exists|x: &'a mut T, y: &'a mut U| *x == g.value_view() && #[trigger] f.ensures((x,), y)
                && *y == r.value_view() && *final(x) == *final(g.value) && *final(y) == *final(r.value),
    {
        let ghost before: T = g.value_view();
        let value: &'a mut T = g.value;
        let v = f(value);
        let ghost after: U = *v;
        assert(exists|x: &'a mut T, y: &'a mut U| #[trigger] f.ensures((x,), y) && *x == before && *y == after
            && *final(x) == *final(value) && *final(y) == *final(v));
        ExclusiveGuard { raw: g.raw, value: v }
    }

    /// Attempts to make a guard for a component of the locked data; when `f`
    /// fails it hands the data back with its error, and the guard is returned
    /// with the error
    pub fn try_map<U, E, F: FnOnce(&'a mut T) -> Result<&'a mut U, (E, &'a mut T)>>(g: Self, f: F)
        -> (r: Result<ExclusiveGuard<'a, L, W, U>, crate::TryMapError<E, Self>>)
        requires
            forall|x: &'a mut T| *x == g.value_view() ==> #[trigger] f.requires((x,)),
        ensures
            r is Ok ==> r->Ok_0.raw == g.raw,
            r is Err ==> r->Err_0.1.raw == g.raw,
            exists|x: &'a mut T, y: Result<&'a mut U, (E, &'a mut T)>| *x == g.value_view() && #[trigger] f.ensures((x,), y)
                && *final(x) == *final(g.value)
                && (y matches Ok(u) ==> r is Ok && *u == r->Ok_0.value_view() && *final(u) == *final(r->Ok_0.value))
                && (y matches Err(p) ==> r is Err && r->Err_0.0 == p.0 && *p.1 == r->Err_0.1.value_view()
                    && *final(p.1) == *final(r->Err_0.1.value)),
    {
        let value: &'a mut T = g.value;
        let raw = g.raw;
        let res = f(value);
        match res {
            Ok(v) => Ok(ExclusiveGuard { raw, value: v }),
            Err((e, back)) => Err(crate::TryMapError(e, ExclusiveGuard { raw, value: back })),
        }
    }

    /// Releases the *exc lock* and wakes a waiting task
    pub fn unlock(self)
        requires
            self.raw.lock_view().exc_wf(),
            self.raw.lock_view().exc_count() > 0,
        ensures
            final(self.raw.inner.lock).exc_wf(),
            final(self.raw.inner.lock).exc_count() == self.raw.lock_view().exc_count() - 1,
            final(self.raw.inner.lock).exc_count() == 0 ==> final(self.raw.inner.lock).exc_available(),
            final(self.raw.waker_set).keys() == self.raw.waker_view().keys(),
            woke_one(self.raw.waker_view().keys(), self.raw.waker_view().woken(), final(self.raw.waker_set).woken()),
            *final(self.value) == self.value_view(),
    {
        self.raw.unlock();
    }
}

impl<'a, L: RawExclusiveLockDowngrade, W: WakerSet, T> ExclusiveGuard<'a, L, W, T> {
    /// Atomically downgrades the guard's *exc lock* to a *shr lock*
    pub fn downgrade(self) -> (r: crate::async_locker::share_lock::ShareGuard<L, W, T>)
        requires
            self.raw.lock_view().exc_wf(),
            self.raw.lock_view().shr_wf(),
            self.raw.lock_view().exc_count() > 0,
        ensures
            final(self.raw.inner.lock).exc_wf(),
            final(self.raw.inner.lock).shr_wf(),
            final(self.raw.inner.lock).exc_count() == self.raw.lock_view().exc_count() - 1,
            final(self.raw.inner.lock).shr_count() == self.raw.lock_view().shr_count() + 1,
            *final(self.value) == self.value_view(),
    {
        crate::async_locker::share_lock::ShareGuard::from_raw_parts(self.raw.downgrade())
    }
}

} // verus!
