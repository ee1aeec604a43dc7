//! A wrapper around an exclusive lock that lets one thread lock it many times
use vstd::prelude::*;
use crate::exclusive_lock::{RawExclusiveLock, RawExclusiveLockFair, RawExclusiveLockTimed};
use crate::reentrant::ThreadInfo;
use crate::share_lock::{RawShareLock, RawShareLockFair, RawShareLockTimed};

verus! {

/// A wrapper around a [`RawExclusiveLock`] that allows it to be used as a
/// reentrant mutex
///
/// The first lock of the owning thread takes the inner lock; the following
/// ones only count.
pub struct RawReentrantLock<L: RawExclusiveLock, I: ThreadInfo> {
    inner: L,
    thread_info: I,
    owner: usize,
    count: usize,
}

impl<L: RawExclusiveLock, I: ThreadInfo> RawReentrantLock<L, I> {
    /// The owner and the count agree with the inner lock: an owned lock holds
    /// the inner lock for the thread that owns it, which may be any thread,
    /// and an unowned one counts nothing
    pub closed spec fn wf(&self) -> bool {
        &&& self.inner.exc_wf()
        &&& self.owner == 0 ==> self.count == 0 && self.inner.exc_count() == 0
        &&& self.owner != 0 ==> self.inner.exc_count() == 1
    }

    /// The wrapped lock
    pub closed spec fn inner_view(&self) -> L {
        self.inner
    }

    /// The thread info
    pub closed spec fn thread_info_view(&self) -> I {
        self.thread_info
    }

    /// The owning thread, or 0 when no thread holds the lock
    pub closed spec fn owner(&self) -> usize {
        self.owner
    }

    /// The number of locks held beyond the first one
    pub closed spec fn count(&self) -> usize {
        self.count
    }

    /// Wrap an exclusive lock; no thread owns the result
    pub fn from_raw_parts(inner: L, thread_info: I) -> (r: Self)
        ensures
            r.inner_view() == inner,
            r.thread_info_view() == thread_info,
            r.owner() == 0,
            r.count() == 0,
            inner.exc_wf() && inner.exc_count() == 0 ==> r.wf(),
    {
        RawReentrantLock { inner, thread_info, owner: 0, count: 0 }
    }

    /// the underlying lock
    pub fn inner(&self) -> (r: &L)
        ensures
            *r == self.inner_view(),
    {
        &self.inner
    }

    /// the underlying thread info
    pub fn thread_info(&self) -> (r: &I)
        ensures
            *r == self.thread_info_view(),
    {
        &self.thread_info
    }

    /// Whether the thread with id `thread` can lock without waiting: the
    /// owning thread can while its count has room, any other thread only while
    /// the inner lock is available
    pub open spec fn available_to(&self, thread: usize) -> bool {
        if self.owner() == thread {
            self.count() < usize::MAX
        } else {
            self.inner_view().exc_available()
        }
    }

    /// How many locks the thread with id `thread` holds: all of them if it
    /// owns the lock, none otherwise
    pub open spec fn held_by(&self, thread: usize) -> nat {
        if self.owner() != 0 && self.owner() == thread { self.count() as nat + 1 } else { 0 }
    }

    /// Attempts to lock from the thread that `thread` names, which need not
    /// be the thread this lock was made for
    pub fn try_lock_from<J: ThreadInfo>(&mut self, thread: &J) -> (r: bool)
        requires
            old(self).wf(),
        ensures
            final(self).wf(),
            r == old(self).available_to(thread.thread_id()),
            r ==> final(self).owner() == thread.thread_id()
                && final(self).held_by(thread.thread_id()) == old(self).held_by(thread.thread_id()) + 1
                && final(self).thread_info_view() == old(self).thread_info_view(),
            !r ==> *final(self) == *old(self),
    {
        proof {
            thread.lemma_id_nonzero();
        }
        let id: usize = thread.id();
        if self.owner == id {
            if self.count == usize::MAX {
                return false;
            }
            self.count = self.count + 1;
            true
        } else {
            proof {
                self.inner.lemma_available_unheld();
            }
            if !self.inner.exc_try_lock() {
                return false;
            }
            self.owner = id;
            true
        }
    }

    /// Releases one lock of the thread that owns the lock
    pub fn unlock_owned(&mut self)
        requires
            old(self).wf(),
            old(self).owner() != 0,
        ensures
            final(self).wf(),
            final(self).held_by(old(self).owner()) == old(self).held_by(old(self).owner()) - 1,
            final(self).thread_info_view() == old(self).thread_info_view(),
            old(self).count() > 0 ==> final(self).owner() == old(self).owner(),
            old(self).count() == 0 ==> final(self).owner() == 0 && final(self).inner_view().exc_available(),
    {
        if self.count > 0 {
            self.count = self.count - 1;
        } else {
            self.owner = 0;
            self.inner.exc_unlock();
        }
    }
}

impl<L: RawExclusiveLock + crate::Init, I: ThreadInfo + crate::Init> crate::Init for RawReentrantLock<L, I> {
    open spec fn is_init(&self) -> bool {
        &&& self.inner_view().is_init()
        &&& self.thread_info_view().is_init()
        &&& self.owner() == 0
        &&& self.count() == 0
    }

    fn init() -> (r: Self)
        ensures
            r.inner_view().exc_wf() && r.inner_view().exc_count() == 0 ==> r.wf(),
    {
        RawReentrantLock { inner: L::init(), thread_info: I::init(), owner: 0, count: 0 }
    }
}

impl<L: RawExclusiveLock + crate::RawLockInfo, I: ThreadInfo> crate::RawLockInfo for RawReentrantLock<L, I> {
    type ExclusiveGuardTraits = ();
    type ShareGuardTraits = ();
}

impl<L: RawExclusiveLock + crate::RawTimedLock, I: ThreadInfo> crate::RawTimedLock for RawReentrantLock<L, I> {
    type Instant = L::Instant;
    type Duration = L::Duration;
}

impl<L: crate::mutex::RawMutex, I: ThreadInfo + crate::Init> crate::reentrant::RawReentrantMutex for RawReentrantLock<L, I> {
    proof fn lemma_init_available(&self) {
        self.inner.lemma_init_available();
    }

    proof fn lemma_holder_relocks(&self) {
        self.thread_info.lemma_id_nonzero();
    }

    proof fn lemma_first_lock_has_room(&self) {
    }
}

impl<L: RawExclusiveLock, I: ThreadInfo> RawShareLock for RawReentrantLock<L, I> {
    open spec fn shr_wf(&self) -> bool {
        self.wf()
    }

    /// The locks held by the thread this lock was made for
    open spec fn shr_count(&self) -> nat {
        self.held_by(self.thread_info_view().thread_id())
    }

    open spec fn shr_available(&self) -> bool {
        self.available_to(self.thread_info_view().thread_id())
    }

    open spec fn shr_split_room(&self) -> bool {
        self.count() < usize::MAX
    }

    /// Bumping yields the inner lock when the lock is held once, and does
    /// nothing while further locks are held
    closed spec fn shr_bumped(&self) -> Self {
        if self.count == 0 {
            RawReentrantLock { inner: self.inner.exc_bumped(), thread_info: self.thread_info, owner: self.owner, count: self.count }
        } else {
            *self
        }
    }

    fn shr_lock(&mut self)
        ensures
            final(self).owner() == final(self).thread_info_view().thread_id(),
    {
        proof {
            self.thread_info.lemma_id_nonzero();
        }
        let id: usize = self.thread_info.id();
        if self.owner == id {
            self.count = self.count + 1;
        } else {
            proof {
                self.inner.lemma_available_unheld();
            }
            self.inner.exc_lock();
            self.owner = id;
        }
    }

    fn shr_try_lock(&mut self) -> (r: bool)
        ensures
            r ==> final(self).owner() == final(self).thread_info_view().thread_id(),
    {
        proof {
            self.thread_info.lemma_id_nonzero();
        }
        let id: usize = self.thread_info.id();
        if self.owner == id {
            if self.count == usize::MAX {
                return false;
            }
            self.count = self.count + 1;
            true
        } else {
            proof {
                self.inner.lemma_available_unheld();
            }
            if !self.inner.exc_try_lock() {
                return false;
            }
            self.owner = id;
            true
        }
    }

    fn shr_split(&mut self) {
        self.count = self.count + 1;
    }

    fn shr_unlock(&mut self) {
        if self.count > 0 {
            self.count = self.count - 1;
        } else {
            self.owner = 0;
            self.inner.exc_unlock();
        }
    }

    fn shr_bump(&mut self) {
        if self.count == 0 {
            self.inner.exc_bump();
        }
    }
}

impl<L: RawExclusiveLockFair, I: ThreadInfo> RawShareLockFair for RawReentrantLock<L, I> {
    closed spec fn shr_bumped_fair(&self) -> Self {
        if self.count == 0 {
            RawReentrantLock { inner: self.inner.exc_bumped_fair(), thread_info: self.thread_info, owner: self.owner, count: self.count }
        } else {
            *self
        }
    }

    fn shr_unlock_fair(&mut self) {
        if self.count > 0 {
            self.count = self.count - 1;
        } else {
            self.owner = 0;
            self.inner.exc_unlock_fair();
        }
    }

    fn shr_bump_fair(&mut self) {
        if self.count == 0 {
            self.inner.exc_bump_fair();
        }
    }
}

impl<L: RawExclusiveLockTimed, I: ThreadInfo> RawShareLockTimed for RawReentrantLock<L, I> {
    fn shr_try_lock_until(&mut self, instant: L::Instant) -> (r: bool) {
        proof {
            self.thread_info.lemma_id_nonzero();
        }
        let id: usize = self.thread_info.id();
        if self.owner == id {
            if self.count == usize::MAX {
                return false;
            }
            self.count = self.count + 1;
            true
        } else {
            proof {
                self.inner.lemma_available_unheld();
            }
            if !self.inner.exc_try_lock_until(instant) {
                return false;
            }
            self.owner = id;
            true
        }
    }

    fn shr_try_lock_for(&mut self, duration: L::Duration) -> (r: bool) {
        proof {
            self.thread_info.lemma_id_nonzero();
        }
        let id: usize = self.thread_info.id();
        if self.owner == id {
            if self.count == usize::MAX {
                return false;
            }
            self.count = self.count + 1;
            true
        } else {
            proof {
                self.inner.lemma_available_unheld();
            }
            if !self.inner.exc_try_lock_for(duration) {
                return false;
            }
            self.owner = id;
            true
        }
    }
}

/// While a thread holds a reentrant lock, it can lock it again without
/// waiting as long as the count of its locks has room, and every other thread
/// has to wait
pub proof fn holder_relocks<L: RawExclusiveLock, I: ThreadInfo>(lock: &RawReentrantLock<L, I>, thread: usize)
    requires
        lock.shr_wf(),
        lock.owner() != 0,
    ensures
        thread == lock.owner() ==> (lock.available_to(thread) <==> lock.shr_split_room()),
        thread != lock.owner() ==> !lock.available_to(thread),
{
    lock.inner_view().lemma_available_unheld();
}

} // verus!
