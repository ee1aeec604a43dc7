//! A reentrant mutex: one thread may hold it any number of times
use vstd::prelude::*;
use crate::share_lock::{RawShareLock, ShareGuard};

pub mod global;
pub mod raw;
pub mod simple;

verus! {

/// Gives the id of the current thread
///
/// No two active threads share an id, and no thread has id 0.
pub trait ThreadInfo {
    /// The id of the thread that runs
    spec fn thread_id(&self) -> usize;

    /// Ids are never 0
    proof fn lemma_id_nonzero(&self)
        ensures
            self.thread_id() != 0,
    ;

    /// The id of the current thread
    fn id(&self) -> (r: usize)
        ensures
            r == self.thread_id(),
    ;
}

/// The id of one fixed thread: the thread that drives a lock word through its
/// operations
pub struct FixedThread {
    id: usize,
}

impl FixedThread {
    /// The thread with the given (nonzero) id
    pub fn new(id: usize) -> (r: Self)
        requires
            id != 0,
        ensures
            r.thread_id() == id,
    {
        FixedThread { id }
    }
}

impl crate::Init for FixedThread {
    open spec fn is_init(&self) -> bool {
        self.thread_id() == 1
    }

    /// The first thread, with id 1
    fn init() -> (r: Self) {
        FixedThread { id: 1 }
    }
}

impl ThreadInfo for FixedThread {
    closed spec fn thread_id(&self) -> usize {
        if self.id == 0 { 1 } else { self.id }
    }

    proof fn lemma_id_nonzero(&self) {
    }

    fn id(&self) -> (r: usize) {
        if self.id == 0 { 1 } else { self.id }
    }
}

/// Types implementing this trait can be used by [`ReentrantMutex`] to form a
/// reentrant mutex: a *shr lock* can only be held by one thread at a time.
pub trait RawReentrantMutex: crate::RawLockInfo + RawShareLock + crate::Init {
    /// A lock in its initial state holds no lock and can be locked at once
    proof fn lemma_init_available(&self)
        requires
            self.is_init(),
        ensures
            self.shr_wf(),
            self.shr_count() == 0,
            self.shr_available(),
    ;

    /// The thread that holds the lock can lock it again without waiting
    /// exactly while its count has room for one more lock (`shr_count` counts
    /// the locks of the calling thread)
    proof fn lemma_holder_relocks(&self)
        requires
            self.shr_wf(),
            self.shr_count() > 0,
        ensures
            self.shr_available() <==> self.shr_split_room(),
    ;

    /// A lock held once has room for one more lock
    proof fn lemma_first_lock_has_room(&self)
        requires
            self.shr_wf(),
            self.shr_count() == 1,
        ensures
            self.shr_split_room(),
    ;
}

/// What taking a lock leaves for the thread that took it: it can lock again
/// without waiting exactly while its count has room, and after its first lock
/// it always can
pub open spec fn holder_can_relock<L: RawReentrantMutex>(before: L, after: L) -> bool {
    &&& after.shr_available() <==> after.shr_split_room()
    &&& before.shr_count() == 0 ==> after.shr_available()
}

/// Re-entry: once a thread has taken a lock on a reentrant lock, it can take
/// another one without waiting while its count has room, and always after its
/// first lock. `before` is the lock before the lock was taken, `after` after it
pub proof fn lock_then_relock<L: RawReentrantMutex>(before: L, after: L)
    requires
        after.shr_wf(),
        after.shr_count() == before.shr_count() + 1,
    ensures
        holder_can_relock(before, after),
{
    after.lemma_holder_relocks();
    if before.shr_count() == 0 {
        after.lemma_first_lock_has_room();
    }
}

/// A mutual exclusion primitive that one thread can lock any number of times
pub struct ReentrantMutex<L, T> {
    lock: L,
    value: T,
}

impl<L, T> ReentrantMutex<L, T> {
    /// The lock word of the mutex
    pub closed spec fn lock_view(&self) -> L {
        self.lock
    }

    /// The protected value
    pub closed spec fn value_view(&self) -> T {
        self.value
    }

    /// Create a reentrant mutex from a lock that holds no lock
    pub fn from_raw_parts(lock: L, value: T) -> (r: Self)
        ensures
            r.lock_view() == lock,
            r.value_view() == value,
    {
        ReentrantMutex { lock, value }
    }

    /// Decomposes the mutex into its lock and its value
    pub fn into_raw_parts(self) -> (r: (L, T))
        ensures
            r.0 == self.lock_view(),
            r.1 == self.value_view(),
    {
        (self.lock, self.value)
    }

    /// Consumes this mutex, returning the underlying data.
    pub fn into_inner(self) -> (r: T)
        ensures
            r == self.value_view(),
    {
        self.value
    }

    /// The underlying lock
    pub fn raw(&self) -> (r: &L)
        ensures
            *r == self.lock_view(),
    {
        &self.lock
    }

    /// Returns a mutable reference to the underlying data.
    pub fn get_mut(&mut self) -> (r: &mut T)
        ensures
            *r == old(self).value_view(),
            final(self).value_view() == *final(r),
            final(self).lock_view() == old(self).lock_view(),
    {
        &mut self.value
    }
}

impl<L: RawReentrantMutex + crate::Init, T> ReentrantMutex<L, T> {
    /// Create a new reentrant mutex
    pub fn new(value: T) -> (r: Self)
        ensures
            r.lock_view().is_init(),
            r.lock_view().shr_wf(),
            r.lock_view().shr_count() == 0,
            r.lock_view().shr_available(),
            r.value_view() == value,
    {
        let r: Self = ReentrantMutex { lock: L::init(), value };
        proof {
            r.lock_view().lemma_init_available();
        }
        r
    }
}

impl<L: RawReentrantMutex, T> ReentrantMutex<L, T> {
    /// Acquires a lock; if the current thread already holds one this cannot
    /// block and always succeeds
    pub fn lock(&mut self) -> (r: ShareGuard<L, T>)
        requires
            old(self).lock_view().shr_wf(),
            old(self).lock_view().shr_available(),
        ensures
            final(self).lock_view().shr_wf(),
            final(self).lock_view().shr_count() == old(self).lock_view().shr_count() + 1,
            final(self).value_view() == old(self).value_view(),
            crate::reentrant::holder_can_relock(old(self).lock_view(), final(self).lock_view()),
    {
        let ghost before = self.lock;
        self.lock.shr_lock();
        proof {
            lock_then_relock(before, self.lock);
        }
        ShareGuard::from_raw_parts(crate::share_lock::RawShareGuard::from_raw())
    }

    /// Attempts to acquire this lock
    pub fn try_lock(&mut self) -> (r: Option<ShareGuard<L, T>>)
        requires
            old(self).lock_view().shr_wf(),
        ensures
            final(self).lock_view().shr_wf(),
            r is Some <==> old(self).lock_view().shr_available(),
            r is Some ==> final(self).lock_view().shr_count() == old(self).lock_view().shr_count() + 1,
            r is None ==> *final(self) == *old(self),
            final(self).value_view() == old(self).value_view(),
            r is Some ==> crate::reentrant::holder_can_relock(old(self).lock_view(), final(self).lock_view()),
    {
        let ghost before = self.lock;
        if self.lock.shr_try_lock() {
            proof {
                lock_then_relock(before, self.lock);
            }
            Some(ShareGuard::from_raw_parts(crate::share_lock::RawShareGuard::from_raw()))
        } else {
            None
        }
    }

    /// The protected value, read through a held lock
    pub fn get(&self, guard: &ShareGuard<L, T>) -> (r: &T)
        ensures
            *r == self.value_view(),
    {
        &self.value
    }

    /// Releases the lock that `guard` stands for
    pub fn unlock(&mut self, guard: ShareGuard<L, T>)
        requires
            old(self).lock_view().shr_wf(),
            old(self).lock_view().shr_count() > 0,
        ensures
            final(self).lock_view().shr_wf(),
            final(self).lock_view().shr_count() == old(self).lock_view().shr_count() - 1,
            final(self).lock_view().shr_count() == 0 ==> final(self).lock_view().shr_available(),
            final(self).value_view() == old(self).value_view(),
    {
        self.lock.shr_unlock();
    }
}

impl<L: crate::exclusive_lock::RawExclusiveLock, I: ThreadInfo, T> ReentrantMutex<simple::RawReentrantLock<L, I>, T> {
    /// Attempts to acquire this lock from the thread that `thread` names: the
    /// thread that holds it locks it again, any other thread gets it only when
    /// no thread holds it
    pub fn try_lock_from<J: ThreadInfo>(&mut self, thread: &J) -> (r: Option<ShareGuard<simple::RawReentrantLock<L, I>, T>>)
        requires
            old(self).lock_view().wf(),
        ensures
            final(self).lock_view().wf(),
            r is Some <==> old(self).lock_view().available_to(thread.thread_id()),
            r is Some ==> final(self).lock_view().owner() == thread.thread_id()
                && final(self).lock_view().held_by(thread.thread_id()) == old(self).lock_view().held_by(thread.thread_id()) + 1,
            r is None ==> *final(self) == *old(self),
            final(self).value_view() == old(self).value_view(),
    {
        if self.lock.try_lock_from(thread) {
            Some(ShareGuard::from_raw_parts(crate::share_lock::RawShareGuard::from_raw()))
        } else {
            None
        }
    }

    /// Releases the lock that `guard` stands for, on behalf of the thread
    /// that owns the lock, whichever thread that is
    pub fn unlock_owned(&mut self, guard: ShareGuard<simple::RawReentrantLock<L, I>, T>)
        requires
            old(self).lock_view().wf(),
            old(self).lock_view().owner() != 0,
        ensures
            final(self).lock_view().wf(),
            final(self).lock_view().held_by(old(self).lock_view().owner())
                == old(self).lock_view().held_by(old(self).lock_view().owner()) - 1,
            final(self).lock_view().held_by(old(self).lock_view().owner()) == 0
                ==> final(self).lock_view().owner() == 0 && final(self).lock_view().inner_view().exc_available(),
            final(self).value_view() == old(self).value_view(),
    {
        self.lock.unlock_owned();
    }
}

impl<L: RawReentrantMutex + crate::Init, T: Default> Default for ReentrantMutex<L, T> {
    /// A reentrant mutex in its initial state protecting the default value
    fn default() -> (r: Self)
        ensures
            r.lock_view().is_init(),
            r.lock_view().shr_wf(),
            r.lock_view().shr_count() == 0,
            r.lock_view().shr_available(),
    {
        let r: Self = Self::new(T::default());
        proof {
            r.lock_view().lemma_init_available();
        }
        r
    }
}

} // verus!
