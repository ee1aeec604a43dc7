//! A local (single-threaded) lock for [`Once`](crate::once::Once) values: a
//! tagged lock whose tag records whether the work is done or poisoned
use vstd::prelude::*;
use crate::exclusive_lock::RawExclusiveLock;
use crate::mutex::local_tagged::LocalTaggedLock;

verus! {

/// The tag bit that records that the work is done
pub const DONE_BIT: u8 = 0b01;

/// The tag bit that records that the work panicked
pub const POISON_BIT: u8 = 0b10;

/// a local raw mutex over a [`RawLock`]
pub type RawMutex = crate::mutex::raw::Mutex<RawLock>;

/// a local mutex over a [`RawLock`]
pub type Mutex<T> = crate::mutex::Mutex<RawLock, T>;

/// a local `Once`
pub type Once = crate::once::Once<RawLock>;

/// a local `OnceCell`
pub type OnceCell<T> = crate::once::OnceCell<RawLock, T>;

/// a local `RacyLazy`
pub type RacyLazy<T, F> = crate::once::RacyLazy<RawLock, T, F>;

/// A lazy value over a [`RawLock`] whose work panics on a poisoned `Once`
pub type Lazy<T, F> = crate::once::Lazy<RawLock, T, F, crate::once::Panic>;

/// A lazy value over a [`RawLock`] whose work runs again after a panicked run
pub type RetryLazy<T, F> = crate::once::Lazy<RawLock, T, F, crate::once::Retry>;

/// The tag facts the done and poison bits rely on
pub proof fn lemma_flag_bits(t: u8)
    by (bit_vector)
    ensures
        (t | 1u8) & 1u8 != 0u8,
        ((t | 1u8) & 2u8 != 0u8) == (t & 2u8 != 0u8),
        (t | 2u8) & 2u8 != 0u8,
        ((t | 2u8) & 1u8 != 0u8) == (t & 1u8 != 0u8),
        (t | (1u8 & 0x7fu8)) == t | 1u8,
        (t | (2u8 & 0x7fu8)) == t | 2u8,
        0u8 & 1u8 == 0u8,
        0u8 & 2u8 == 0u8,
{
}

/// A local lock whose tag holds the done and poison flags of a `Once`
pub struct RawLock {
    inner: LocalTaggedLock,
}

impl RawLock {
    /// The tagged lock underneath
    pub closed spec fn inner_view(&self) -> LocalTaggedLock {
        self.inner
    }

    /// create a new lock: unlocked, not done, not poisoned
    pub fn new() -> (r: Self)
        ensures
            r.is_init(),
    {
        proof {
            lemma_flag_bits(0u8);
        }
        RawLock { inner: LocalTaggedLock::new() }
    }

    /// Whether the lock is in its initial state
    pub open spec fn is_init(&self) -> bool {
        !self.inner_view().locked() && self.inner_view().tag_value() == 0 && !self.done_flag() && !self.poisoned_flag()
    }

    /// Whether the done flag is set
    pub open spec fn done_flag(&self) -> bool {
        self.inner_view().tag_value() & DONE_BIT != 0
    }

    /// Whether the poison flag is set
    pub open spec fn poisoned_flag(&self) -> bool {
        self.inner_view().tag_value() & POISON_BIT != 0
    }

    /// create a new raw mutex
    pub fn raw_mutex() -> (r: RawMutex)
        ensures
            r.lock_view().is_init(),
    {
        crate::mutex::raw::Mutex::from_raw(Self::new())
    }

    /// create a new mutex
    pub fn mutex<T>(value: T) -> (r: Mutex<T>)
        ensures
            r.lock_view().is_init(),
            r.value_view() == value,
    {
        crate::mutex::Mutex::from_raw_parts(Self::raw_mutex(), value)
    }

    /// create a new `Once`
    pub fn once() -> (r: Once)
        ensures
            r.lock_view().is_init(),
    {
        crate::once::Once::from_raw(Self::new())
    }

    /// create a new `OnceCell`
    pub fn once_cell<T>() -> (r: OnceCell<T>)
        ensures
            r.once_view().lock_view().is_init(),
            r.value_view() is None,
    {
        crate::once::OnceCell::from_once(Self::once())
    }

    /// create a new `Lazy` that will run `func`
    pub fn lazy<T, F: FnOnce() -> T>(func: F) -> (r: Lazy<T, F>)
        ensures
            r.once_view().lock_view().is_init(),
            r.inner_view() == crate::once::LazyInner::<F, T>::Func(func),
    {
        crate::once::Lazy::from_raw_parts(Self::once(), func)
    }

    /// create a new lazy value that will run `func`, again after a panicked run
    pub fn retry_lazy<T, F: FnMut(&crate::once::OnceState) -> T>(func: F) -> (r: RetryLazy<T, F>)
        ensures
            r.once_view().lock_view().is_init(),
            r.inner_view() == crate::once::LazyInner::<F, T>::Func(func),
    {
        crate::once::Lazy::from_raw_parts(Self::once(), func)
    }

    /// create a new `RacyLazy`
    pub fn racy_lazy<T, F: Fn() -> T>(func: F) -> (r: RacyLazy<T, F>)
        ensures
            r.cell_view().once_view().lock_view().is_init(),
            r.cell_view().value_view() is None,
            r.func_view() == func,
    {
        crate::once::RacyLazy::from_parts(Self::once_cell(), func)
    }
}

impl crate::Init for RawLock {
    open spec fn is_init(&self) -> bool {
        !self.inner_view().locked() && self.inner_view().tag_value() == 0 && !self.done_flag() && !self.poisoned_flag()
    }

    fn init() -> (r: Self) {
        Self::new()
    }
}

impl crate::RawLockInfo for RawLock {
    type ExclusiveGuardTraits = ();
    type ShareGuardTraits = ();
}

impl crate::mutex::RawMutex for RawLock {
    proof fn lemma_init_available(&self) {
    }
}

impl RawExclusiveLock for RawLock {
    open spec fn exc_wf(&self) -> bool {
        true
    }

    open spec fn exc_count(&self) -> nat {
        self.inner_view().exc_count()
    }

    open spec fn exc_available(&self) -> bool {
        self.inner_view().exc_available()
    }

    proof fn lemma_available_unheld(&self) {
    }

    /// Bumping leaves the lock word as it is
    open spec fn exc_bumped(&self) -> Self {
        *self
    }

    fn exc_lock(&mut self)
        ensures
            final(self).inner_view().tag_value() == old(self).inner_view().tag_value(),
    {
        self.inner.exc_lock();
    }

    fn exc_try_lock(&mut self) -> (r: bool)
        ensures
            final(self).inner_view().tag_value() == old(self).inner_view().tag_value(),
    {
        self.inner.exc_try_lock()
    }

    fn exc_unlock(&mut self)
        ensures
            final(self).inner_view().tag_value() == old(self).inner_view().tag_value(),
    {
        self.inner.exc_unlock();
    }

    fn exc_bump(&mut self)
        ensures
            *final(self) == *old(self),
    {
        self.inner.exc_bump();
    }
}

impl crate::once::Finish for RawLock {
    open spec fn done(&self) -> bool {
        self.done_flag()
    }

    open spec fn poisoned(&self) -> bool {
        self.poisoned_flag()
    }

    fn is_done(&self) -> (r: bool) {
        self.inner.tag() & DONE_BIT != 0
    }

    fn mark_done(&mut self) {
        let old_tag = self.inner.or_tag(DONE_BIT);
        proof {
            lemma_flag_bits(old_tag);
        }
    }

    fn is_poisoned(&self) -> (r: bool) {
        self.inner.tag() & POISON_BIT != 0
    }

    fn mark_poisoned(&mut self) {
        let old_tag = self.inner.or_tag(POISON_BIT);
        proof {
            lemma_flag_bits(old_tag);
        }
    }

    fn lock_once(&mut self) {
        self.inner.exc_lock();
    }

    fn unlock_once(&mut self) {
        self.inner.exc_unlock();
    }
}

} // verus!
