//! A lock that refuses a second exclusive lock from the thread that holds one
use vstd::prelude::*;
use crate::exclusive_lock::{RawExclusiveLock, RawExclusiveLockDowngrade, RawExclusiveLockFair};
use crate::share_lock::{RawShareLock, RawShareLockFair};
use crate::mutex::RawMutex;
use crate::reentrant::ThreadInfo;
use crate::rwlock::RawRwLock;

verus! {

/// Wraps a lock and records which thread holds its exclusive lock, so that a
/// thread locking it again panics instead of deadlocking; the share lock is
/// left untouched
///
/// Locking it again from the owning thread means locking a held lock, which the
/// contract of [`RawExclusiveLock::exc_lock`] already rules out: the owner
/// check is proved to pass.
pub struct ReentrantPanic<L, I> {
    owner: usize,
    thread_info: I,
    inner: L,
}

impl<L, I: ThreadInfo> ReentrantPanic<L, I> {
    /// The wrapped lock
    pub closed spec fn inner_view(&self) -> L {
        self.inner
    }

    /// The thread info
    pub closed spec fn thread_info_view(&self) -> I {
        self.thread_info
    }

    /// The thread that holds the exclusive lock, or 0
    pub closed spec fn owner(&self) -> usize {
        self.owner
    }

    /// Wrap a lock; no thread owns the result
    pub fn wrap(inner: L, thread_info: I) -> (r: Self)
        ensures
            r.inner_view() == inner,
            r.thread_info_view() == thread_info,
            r.owner() == 0,
    {
        ReentrantPanic { inner, thread_info, owner: 0 }
    }
}

/// What a checked lock reports when the calling thread already holds the
/// exclusive lock
pub struct AlreadyHeld;

impl<L: RawExclusiveLock, I: ThreadInfo> ReentrantPanic<L, I> {
    /// Acquires the exclusive lock, or reports [`AlreadyHeld`] where
    /// [`RawExclusiveLock::exc_lock`] would panic: when the calling thread
    /// already holds it
    pub fn exc_lock_checked(&mut self) -> (r: Result<(), AlreadyHeld>)
        requires
            old(self).exc_wf(),
            old(self).owner() == 0 ==> old(self).exc_available(),
        ensures
            final(self).exc_wf(),
            r is Err <==> old(self).owner() == old(self).thread_info_view().thread_id(),
            r is Ok ==> final(self).exc_count() == old(self).exc_count() + 1
                && final(self).owner() == old(self).thread_info_view().thread_id(),
            r is Err ==> *final(self) == *old(self),
    {
        proof {
            self.thread_info.lemma_id_nonzero();
        }
        let curr: usize = self.thread_info.id();
        if self.owner == curr {
            return Err(AlreadyHeld);
        }
        self.inner.exc_lock();
        self.owner = curr;
        Ok(())
    }
}

impl<L: crate::Init, I: ThreadInfo + crate::Init> crate::Init for ReentrantPanic<L, I> {
    open spec fn is_init(&self) -> bool {
        &&& self.inner_view().is_init()
        &&& self.thread_info_view().is_init()
        &&& self.owner() == 0
    }

    fn init() -> (r: Self) {
        ReentrantPanic { inner: L::init(), thread_info: I::init(), owner: 0 }
    }
}

impl<L: crate::RawLockInfo, I: ThreadInfo> crate::RawLockInfo for ReentrantPanic<L, I> {
    type ExclusiveGuardTraits = L::ExclusiveGuardTraits;
    type ShareGuardTraits = L::ShareGuardTraits;
}

impl<L: RawMutex, I: ThreadInfo + crate::Init> RawMutex for ReentrantPanic<L, I> {
    proof fn lemma_init_available(&self) {
        self.inner.lemma_init_available();
    }
}

impl<L: RawRwLock, I: ThreadInfo + crate::Init> RawRwLock for ReentrantPanic<L, I> {
    proof fn lemma_init_shr_available(&self) {
        self.inner.lemma_init_shr_available();
    }

    proof fn lemma_rw_exclusion(&self) {
        self.inner.lemma_rw_exclusion();
    }
}

impl<L: RawExclusiveLock, I: ThreadInfo> RawExclusiveLock for ReentrantPanic<L, I> {
    /// The inner lock is usable, and an owner is recorded only while the inner
    /// lock is held, by the current thread
    open spec fn exc_wf(&self) -> bool {
        &&& self.inner_view().exc_wf()
        &&& self.owner() != 0 ==> self.owner() == self.thread_info_view().thread_id()
            && self.inner_view().exc_count() > 0
    }

    open spec fn exc_count(&self) -> nat {
        self.inner_view().exc_count()
    }

    open spec fn exc_available(&self) -> bool {
        self.inner_view().exc_available()
    }

    proof fn lemma_available_unheld(&self) {
        self.inner.lemma_available_unheld();
    }

    /// Bumping bumps the wrapped lock and keeps the owner
    closed spec fn exc_bumped(&self) -> Self {
        ReentrantPanic { owner: self.owner, thread_info: self.thread_info, inner: self.inner.exc_bumped() }
    }

    fn exc_lock(&mut self)
        ensures
            final(self).owner() == old(self).thread_info_view().thread_id(),
            final(self).thread_info_view() == old(self).thread_info_view(),
    {
        let curr: usize = self.thread_info.id();
        let owner = self.owner;
        proof {
            self.inner.lemma_available_unheld();
            self.thread_info.lemma_id_nonzero();
            assert(owner != curr);
        }
        self.inner.exc_lock();
        self.owner = curr;
    }

    fn exc_try_lock(&mut self) -> (r: bool)
        ensures
            r ==> final(self).owner() == old(self).thread_info_view().thread_id(),
            final(self).thread_info_view() == old(self).thread_info_view(),
    {
        if self.inner.exc_try_lock() {
            let curr: usize = self.thread_info.id();
            self.owner = curr;
            proof {
                self.thread_info.lemma_id_nonzero();
            }
            true
        } else {
            false
        }
    }

    fn exc_unlock(&mut self) {
        self.owner = 0;
        self.inner.exc_unlock();
    }

    fn exc_bump(&mut self)
        ensures
            final(self).owner() == old(self).owner(),
            final(self).thread_info_view() == old(self).thread_info_view(),
    {
        let owner = self.owner;
        self.owner = 0;
        self.inner.exc_bump();
        self.owner = owner;
    }
}

impl<L: RawExclusiveLockFair, I: ThreadInfo> RawExclusiveLockFair for ReentrantPanic<L, I> {
    closed spec fn exc_bumped_fair(&self) -> Self {
        ReentrantPanic { owner: self.owner, thread_info: self.thread_info, inner: self.inner.exc_bumped_fair() }
    }

    fn exc_unlock_fair(&mut self) {
        self.owner = 0;
        self.inner.exc_unlock_fair();
    }

    fn exc_bump_fair(&mut self)
        ensures
            final(self).owner() == old(self).owner(),
            final(self).thread_info_view() == old(self).thread_info_view(),
    {
        let owner = self.owner;
        self.owner = 0;
        self.inner.exc_bump_fair();
        self.owner = owner;
    }
}

/// Bumping, fair or not, keeps the holder on record: the lock word after a
/// bump has the owner and thread the lock had, so the holder's relock is
/// still refused after it
pub proof fn bump_keeps_holder<L: RawExclusiveLockFair, I: ThreadInfo>(lock: ReentrantPanic<L, I>)
    ensures
        lock.exc_bumped().owner() == lock.owner(),
        lock.exc_bumped().thread_info_view() == lock.thread_info_view(),
        lock.exc_bumped_fair().owner() == lock.owner(),
        lock.exc_bumped_fair().thread_info_view() == lock.thread_info_view(),
{
}

/// A lock its own thread holds is on record as held by that thread, so the
/// checked relock from that thread is refused: `before` is the lock before the
/// thread took it, `after` the lock once taken by `exc_lock` (whose owner is
/// the taking thread) or by a successful `exc_try_lock`
pub proof fn taken_lock_refuses_relock<L: RawExclusiveLock, I: ThreadInfo>(
    before: ReentrantPanic<L, I>,
    after: ReentrantPanic<L, I>,
)
    requires
        after.owner() == before.thread_info_view().thread_id(),
        after.thread_info_view() == before.thread_info_view(),
    ensures
        after.owner() != 0,
        after.owner() == after.thread_info_view().thread_id(),
{
    before.thread_info_view().lemma_id_nonzero();
}

impl<L: RawExclusiveLockDowngrade, I: ThreadInfo> RawExclusiveLockDowngrade for ReentrantPanic<L, I> {
    fn downgrade(&mut self) {
        self.owner = 0;
        self.inner.downgrade();
    }
}

impl<L: RawShareLock, I: ThreadInfo> RawShareLock for ReentrantPanic<L, I> {
    open spec fn shr_wf(&self) -> bool {
        self.inner_view().shr_wf()
    }

    open spec fn shr_count(&self) -> nat {
        self.inner_view().shr_count()
    }

    open spec fn shr_available(&self) -> bool {
        self.inner_view().shr_available()
    }

    open spec fn shr_split_room(&self) -> bool {
        self.inner_view().shr_split_room()
    }

    /// Bumping bumps the wrapped lock and keeps the owner
    closed spec fn shr_bumped(&self) -> Self {
        ReentrantPanic { owner: self.owner, thread_info: self.thread_info, inner: self.inner.shr_bumped() }
    }

    fn shr_lock(&mut self) {
        self.inner.shr_lock();
    }

    fn shr_try_lock(&mut self) -> (r: bool) {
        self.inner.shr_try_lock()
    }

    fn shr_split(&mut self) {
        self.inner.shr_split();
    }

    fn shr_unlock(&mut self) {
        self.inner.shr_unlock();
    }

    fn shr_bump(&mut self) {
        self.inner.shr_bump();
    }
}

impl<L: RawShareLockFair, I: ThreadInfo> RawShareLockFair for ReentrantPanic<L, I> {
    closed spec fn shr_bumped_fair(&self) -> Self {
        ReentrantPanic { owner: self.owner, thread_info: self.thread_info, inner: self.inner.shr_bumped_fair() }
    }

    fn shr_unlock_fair(&mut self) {
        self.inner.shr_unlock_fair();
    }

    fn shr_bump_fair(&mut self) {
        self.inner.shr_bump_fair();
    }
}

} // verus!
