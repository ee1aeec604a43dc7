//! A default tagged raw mutex
use vstd::prelude::*;
use std::sync::atomic::Ordering;
use crate::exclusive_lock::{RawExclusiveLock, RawExclusiveLockFair, RawExclusiveLockTimed};
use crate::mutex::tagged::{TaggedLock, MASK};

verus! {

/// A default tagged raw mutex
pub type RawMutex = crate::mutex::raw::Mutex<TaggedDefaultLock>;

/// A default tagged mutex
pub type Mutex<T> = crate::mutex::Mutex<TaggedDefaultLock, T>;

/// A tagged lock that can store up to `TAG_BITS` bits in the lower bits of the lock
///
/// It parks waiting threads, as [`TaggedLock`] does.
pub struct TaggedDefaultLock(TaggedLock);

impl TaggedDefaultLock {
    /// The number of bits that this mutex can store
    ///
    /// This is guaranteed to be at least 4
    pub const TAG_BITS: u8 = TaggedLock::TAG_BITS;

    /// The lock it forwards to
    pub closed spec fn inner_view(&self) -> TaggedLock {
        self.0
    }

    /// Create a new default mutex lock
    pub fn new() -> (r: Self)
        ensures
            r.inner_view().word() == 0,
    {
        TaggedDefaultLock(TaggedLock::new())
    }

    /// create a new tagged lock with the given inital tag
    pub fn with_tag(tag: u8) -> (r: Self)
        ensures
            r.inner_view().word() == tag & MASK,
            !r.inner_view().locked(),
            !r.inner_view().parked(),
            r.inner_view().tag_value() == tag & MASK,
    {
        TaggedDefaultLock(TaggedLock::with_tag(tag))
    }

    /// Get the tag
    pub fn tag(&self, order: Ordering) -> (r: u8)
        ensures
            r == self.inner_view().tag_value(),
    {
        self.0.tag(order)
    }

    /// perform a bit-wise and with the given tag and the stored tag
    ///
    /// returns the old tag
    pub fn and_tag(&mut self, tag: u8, order: Ordering) -> (r: u8)
        ensures
            r == old(self).inner_view().tag_value(),
            final(self).inner_view().tag_value() == old(self).inner_view().tag_value() & tag,
            final(self).inner_view().locked() == old(self).inner_view().locked(),
            final(self).inner_view().parked() == old(self).inner_view().parked(),
    {
        self.0.and_tag(tag, order)
    }

    /// perform a bit-wise or with the given tag and the stored tag
    ///
    /// returns the old tag
    pub fn or_tag(&mut self, tag: u8, order: Ordering) -> (r: u8)
        ensures
            r == old(self).inner_view().tag_value(),
            final(self).inner_view().tag_value() == old(self).inner_view().tag_value() | (tag & MASK),
            final(self).inner_view().locked() == old(self).inner_view().locked(),
            final(self).inner_view().parked() == old(self).inner_view().parked(),
    {
        self.0.or_tag(tag, order)
    }

    /// swap the tag with the given tag
    ///
    /// returns the old tag
    pub fn swap_tag(&mut self, tag: u8, order: Ordering) -> (r: u8)
        ensures
            r == old(self).inner_view().tag_value(),
            final(self).inner_view().tag_value() == tag & MASK,
            final(self).inner_view().locked() == old(self).inner_view().locked(),
            final(self).inner_view().parked() == old(self).inner_view().parked(),
    {
        self.0.swap_tag(tag, order)
    }

    /// swap the tag with the given tag
    pub fn exchange_tag(&mut self, tag: u8, success: Ordering, failure: Ordering) -> (r: u8)
        ensures
            r == old(self).inner_view().tag_value(),
            final(self).inner_view().tag_value() == tag & MASK,
            final(self).inner_view().locked() == old(self).inner_view().locked(),
            final(self).inner_view().parked() == old(self).inner_view().parked(),
    {
        self.0.exchange_tag(tag, success, failure)
    }

    /// update the tag with the given function; returns the old tag, as `Ok`
    /// if the function gave a new tag and `Err` if it gave `None`
    pub fn update_tag<F: FnMut(u8) -> Option<u8>>(&mut self, success: Ordering, failure: Ordering, f: F) -> (r: Result<u8, u8>)
        requires
            f.requires((old(self).inner_view().tag_value(),)),
        ensures
            r matches Ok(x) ==> x == old(self).inner_view().tag_value() && exists|t: u8|
                f.ensures((old(self).inner_view().tag_value(),), Some(t))
                && #[trigger] final(self).inner_view().tag_value() == t & MASK,
            r matches Err(x) ==> x == old(self).inner_view().tag_value()
                && f.ensures((old(self).inner_view().tag_value(),), None)
                && final(self).inner_view().tag_value() == old(self).inner_view().tag_value(),
            final(self).inner_view().locked() == old(self).inner_view().locked(),
            final(self).inner_view().parked() == old(self).inner_view().parked(),
    {
        self.0.update_tag(success, failure, f)
    }

    /// Create a new raw tagged mutex
    pub fn raw_mutex() -> (r: RawMutex)
        ensures
            r.lock_view().inner_view().word() == 0,
    {
        crate::mutex::raw::Mutex::from_raw(Self::new())
    }

    /// Create a new tagged mutex
    pub fn mutex<T>(value: T) -> (r: Mutex<T>)
        ensures
            r.lock_view().inner_view().word() == 0,
            r.value_view() == value,
    {
        crate::mutex::Mutex::from_raw_parts(Self::raw_mutex(), value)
    }
}

impl crate::Init for TaggedDefaultLock {
    open spec fn is_init(&self) -> bool {
        self.inner_view().word() == 0
    }

    fn init() -> (r: Self) {
        TaggedDefaultLock(<TaggedLock as crate::Init>::init())
    }
}

impl crate::RawLockInfo for TaggedDefaultLock {
    type ExclusiveGuardTraits = ();
    type ShareGuardTraits = ();
}

impl crate::RawTimedLock for TaggedDefaultLock {
    type Instant = std::time::Instant;
    type Duration = core::time::Duration;
}

impl crate::mutex::RawMutex for TaggedDefaultLock {
    proof fn lemma_init_available(&self) {
        self.0.lemma_init_available();
    }
}

impl RawExclusiveLock for TaggedDefaultLock {
    open spec fn exc_wf(&self) -> bool {
        true
    }

    open spec fn exc_count(&self) -> nat {
        self.inner_view().exc_count()
    }

    open spec fn exc_available(&self) -> bool {
        self.inner_view().exc_available()
    }

    proof fn lemma_available_unheld(&self) {
    }

    closed spec fn exc_bumped(&self) -> Self {
        TaggedDefaultLock(self.0.exc_bumped())
    }

    fn exc_lock(&mut self)
        ensures
            final(self).inner_view().word() == old(self).inner_view().word() | crate::mutex::tagged::LOCK_BIT,
            final(self).inner_view().tag_value() == old(self).inner_view().tag_value(),
    {
        self.0.exc_lock();
    }

    fn exc_try_lock(&mut self) -> (r: bool)
        ensures
            r ==> final(self).inner_view().word() == old(self).inner_view().word() | crate::mutex::tagged::LOCK_BIT,
            final(self).inner_view().tag_value() == old(self).inner_view().tag_value(),
    {
        self.0.exc_try_lock()
    }

    fn exc_unlock(&mut self)
        ensures
            final(self).inner_view().tag_value() == old(self).inner_view().tag_value(),
    {
        self.0.exc_unlock();
    }

    fn exc_bump(&mut self)
        ensures
            final(self).inner_view().tag_value() == old(self).inner_view().tag_value(),
    {
        self.0.exc_bump();
    }
}

impl RawExclusiveLockFair for TaggedDefaultLock {
    closed spec fn exc_bumped_fair(&self) -> Self {
        TaggedDefaultLock(self.0.exc_bumped_fair())
    }

    fn exc_unlock_fair(&mut self)
        ensures
            final(self).inner_view().tag_value() == old(self).inner_view().tag_value(),
    {
        self.0.exc_unlock_fair();
    }

    fn exc_bump_fair(&mut self)
        ensures
            final(self).inner_view().tag_value() == old(self).inner_view().tag_value(),
    {
        self.0.exc_bump_fair();
    }
}

impl RawExclusiveLockTimed for TaggedDefaultLock {
    fn exc_try_lock_until(&mut self, instant: std::time::Instant) -> (r: bool)
        ensures
            final(self).inner_view().tag_value() == old(self).inner_view().tag_value(),
    {
        self.0.exc_try_lock_until(instant)
    }

    fn exc_try_lock_for(&mut self, duration: core::time::Duration) -> (r: bool)
        ensures
            final(self).inner_view().tag_value() == old(self).inner_view().tag_value(),
    {
        self.0.exc_try_lock_for(duration)
    }
}

/// The tag of a tagged lock survives any run of lock operations and always
/// fits its `TAG_BITS` bits: `locks` is the run of lock values, each one left
/// by an operation on the one before that keeps the tag, as locking, trying
/// to lock, unlocking and bumping (fair or not) all do
pub proof fn lock_runs_keep_default_tag(locks: Seq<TaggedDefaultLock>)
    requires
        forall|i: int| 0 <= i < locks.len() - 1
            ==> (#[trigger] locks[i + 1]).inner_view().tag_value() == locks[i].inner_view().tag_value(),
    ensures
        forall|i: int| 0 <= i < locks.len()
            ==> (#[trigger] locks[i]).inner_view().tag_value() == locks[0].inner_view().tag_value()
                && locks[i].inner_view().tag_value() < 64,
    decreases locks.len(),
{
    if locks.len() > 0 {
        let init = locks.drop_last();
        assert forall|i: int| 0 <= i < init.len() - 1
            implies (#[trigger] init[i + 1]).inner_view().tag_value() == init[i].inner_view().tag_value() by {
            assert(locks[i + 1] == init[i + 1]);
        }
        lock_runs_keep_default_tag(init);
        assert forall|i: int| 0 <= i < locks.len()
            implies (#[trigger] locks[i]).inner_view().tag_value() == locks[0].inner_view().tag_value()
                && locks[i].inner_view().tag_value() < 64 by {
            locks[i].inner_view().lemma_word_parts();
            if i < locks.len() - 1 {
                assert(init[i] == locks[i]);
            } else if i > 0 {
                assert(locks[(i - 1) + 1] == locks[i]);
                assert(init[i - 1] == locks[i - 1]);
            }
        }
    }
}

} // verus!
