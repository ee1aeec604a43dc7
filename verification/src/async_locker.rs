//! Locks whose waiting tasks register wakers instead of blocking their thread
//!
//! Acquiring such a lock is a future: each poll runs [`poll_exc`] or
//! [`poll_shr`] once. A poll that finds the lock held registers the task's
//! waker in the lock's [`WakerSet`] and returns the key of the registration,
//! which the next poll of the same future hands back. Releasing a lock wakes
//! one registered task.
use vstd::prelude::*;
use crate::exclusive_lock::RawExclusiveLock;
use crate::share_lock::RawShareLock;

pub mod exclusive_lock;
pub mod mutex;
pub mod reentrant;
pub mod remutex;
pub mod rwlock;
pub mod share_lock;
pub mod slab;

verus! {

/// The context of the task being polled
#[verifier::external_type_specification]
#[verifier::external_body]
pub struct ExContext<'a>(core::task::Context<'a>);

/// A set of wakers of tasks waiting for a lock
pub trait WakerSet: Sized {
    /// The key of a registered waker
    type Index;

    /// The keys of the registered wakers
    spec fn keys(&self) -> Set<Self::Index>;

    /// The keys whose tasks were woken since they were registered
    spec fn woken(&self) -> Set<Self::Index>;

    /// Registers the waker of the task of `cx`, under a new key whose task is
    /// not woken
    fn insert(&mut self, cx: &mut core::task::Context) -> (r: Self::Index)
        ensures
            !old(self).keys().contains(r),
            !old(self).woken().contains(r),
            final(self).keys() == old(self).keys().insert(r),
            final(self).woken() == old(self).woken(),
    ;

    /// Whether no waker is registered
    fn is_empty(&self) -> (r: bool)
        ensures
            r == (self.keys() == Set::<Self::Index>::empty()),
    ;

    /// Unregisters the waker of `key`
    fn remove(&mut self, key: Self::Index)
        requires
            old(self).keys().contains(key),
        ensures
            final(self).keys() == old(self).keys().remove(key),
            final(self).woken() == old(self).woken().remove(key),
    ;

    /// Unregisters the waker of `key`, handing a notification it received
    /// to another registered waker; returns whether it did
    fn cancel(&mut self, key: Self::Index) -> (r: bool)
        requires
            old(self).keys().contains(key),
        ensures
            final(self).keys() == old(self).keys().remove(key),
            !r ==> final(self).woken() == old(self).woken().remove(key),
            r ==> old(self).woken().contains(key)
                && woke_one(old(self).keys().remove(key), old(self).woken().remove(key), final(self).woken()),
    ;

    /// Wakes one registered task that was not woken yet, if there is one;
    /// returns whether it woke one
    fn notify_any(&mut self) -> (r: bool)
        ensures
            final(self).keys() == old(self).keys(),
            r == has_unwoken(old(self).keys(), old(self).woken()),
            woke_one(old(self).keys(), old(self).woken(), final(self).woken()),
    ;

    /// Wakes all registered tasks; returns whether it woke any that was not
    /// woken yet
    fn notify_all(&mut self) -> (r: bool)
        ensures
            final(self).keys() == old(self).keys(),
            r == has_unwoken(old(self).keys(), old(self).woken()),
            final(self).woken() == old(self).woken().union(old(self).keys()),
    ;
}

/// Whether a registered task is not woken yet
pub open spec fn has_unwoken<I>(keys: Set<I>, woken: Set<I>) -> bool {
    exists|k: I| keys.contains(k) && !woken.contains(k)
}

/// The woken keys go from `before` to `after` by waking one registered task
/// that was not woken yet, if there is one, and stay as they are otherwise
pub open spec fn woke_one<I>(keys: Set<I>, before: Set<I>, after: Set<I>) -> bool {
    if has_unwoken(keys, before) {
        exists|k: I| keys.contains(k) && !before.contains(k) && after == before.insert(k)
    } else {
        after == before
    }
}

/// The outcome of one poll of a lock future
pub enum LockPoll<G, I> {
    /// The lock was acquired
    Ready(G),
    /// The lock is held; the task's waker is registered under this key
    Pending(I),
}

/// The keys of a waker set after the key of an earlier poll, if any, was
/// unregistered
pub open spec fn without_key<I>(keys: Set<I>, key: Option<I>) -> Set<I> {
    match key {
        Some(k) => keys.remove(k),
        None => keys,
    }
}

/// One poll of a future acquiring an *exc lock* on `lock`: the registration
/// of the previous poll is dropped, the lock is tried, and if it is held the
/// task's waker is registered and the lock tried once more
pub fn poll_exc<L: RawExclusiveLock, W: WakerSet>(
    lock: &mut L,
    waker_set: &mut W,
    key: Option<W::Index>,
    cx: &mut core::task::Context,
) -> (r: LockPoll<(), W::Index>)
    requires
        old(lock).exc_wf(),
        key matches Some(k) ==> old(waker_set).keys().contains(k),
    ensures
        final(lock).exc_wf(),
        r is Ready <==> old(lock).exc_available(),
        final(waker_set).woken() == without_key(old(waker_set).woken(), key),
        r is Ready ==> final(lock).exc_count() == old(lock).exc_count() + 1
            && final(waker_set).keys() == without_key(old(waker_set).keys(), key),
        r matches LockPoll::Pending(k) ==> *final(lock) == *old(lock)
            && !without_key(old(waker_set).keys(), key).contains(k)
            && final(waker_set).keys() == without_key(old(waker_set).keys(), key).insert(k),
{
    match key {
        Some(k) => waker_set.remove(k),
        None => {},
    }
    if lock.exc_try_lock() {
        return LockPoll::Ready(());
    }
    let k = waker_set.insert(cx);
    if lock.exc_try_lock() {
        waker_set.remove(k);
        LockPoll::Ready(())
    } else {
        LockPoll::Pending(k)
    }
}

/// One poll of a future acquiring a *shr lock* on `lock`, as [`poll_exc`]
/// does for an *exc lock*
pub fn poll_shr<L: RawShareLock, W: WakerSet>(
    lock: &mut L,
    waker_set: &mut W,
    key: Option<W::Index>,
    cx: &mut core::task::Context,
) -> (r: LockPoll<(), W::Index>)
    requires
        old(lock).shr_wf(),
        key matches Some(k) ==> old(waker_set).keys().contains(k),
    ensures
        final(lock).shr_wf(),
        r is Ready <==> old(lock).shr_available(),
        final(waker_set).woken() == without_key(old(waker_set).woken(), key),
        r is Ready ==> final(lock).shr_count() == old(lock).shr_count() + 1
            && final(waker_set).keys() == without_key(old(waker_set).keys(), key),
        r matches LockPoll::Pending(k) ==> *final(lock) == *old(lock)
            && !without_key(old(waker_set).keys(), key).contains(k)
            && final(waker_set).keys() == without_key(old(waker_set).keys(), key).insert(k),
{
    match key {
        Some(k) => waker_set.remove(k),
        None => {},
    }
    if lock.shr_try_lock() {
        return LockPoll::Ready(());
    }
    let k = waker_set.insert(cx);
    if lock.shr_try_lock() {
        waker_set.remove(k);
        LockPoll::Ready(())
    } else {
        LockPoll::Pending(k)
    }
}

/// The registration of a pending poll is dropped by the next poll of the same
/// future: handing back the key `k` it got leaves the keys as they were
/// before the pending poll
pub proof fn repoll_drops_registration<I>(keys: Set<I>, k: I)
    requires
        !keys.contains(k),
    ensures
        without_key(keys.insert(k), Some(k)) == keys,
{
    assert(keys.insert(k).remove(k) =~= keys);
}

} // verus!
