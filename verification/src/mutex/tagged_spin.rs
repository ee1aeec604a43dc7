//! a tagged spin lock
use vstd::prelude::*;
use std::sync::atomic::Ordering;
use crate::exclusive_lock::RawExclusiveLock;

verus! {

/// The lock bit of a [`TaggedSpinLock`] word: the highest bit
pub const LOCK_BIT: u8 = 0b1000_0000;

/// The tag bits of a [`TaggedSpinLock`] word: all bits below the lock bit
pub const MASK: u8 = 0b0111_1111;

/// A tagged spin raw mutex that can store up to `TAG_BITS` bits in the lower bits of the lock
pub type RawMutex = crate::mutex::raw::Mutex<TaggedSpinLock>;

/// A tagged spin mutex that can store up to `TAG_BITS` bits in the lower bits of the lock
pub type Mutex<T> = crate::mutex::Mutex<TaggedSpinLock, T>;

/// The strongest ordering a failed compare-and-swap may use, given the
/// ordering of the successful one
pub fn strongest_failure_ordering(order: Ordering) -> (r: Ordering)
    ensures
        order == Ordering::Release ==> r == Ordering::Relaxed,
        order == Ordering::Relaxed ==> r == Ordering::Relaxed,
        order == Ordering::SeqCst ==> r == Ordering::SeqCst,
        order == Ordering::Acquire ==> r == Ordering::Acquire,
        order == Ordering::AcqRel ==> r == Ordering::Acquire,
{
    match order {
        Ordering::Release => Ordering::Relaxed,
        Ordering::Relaxed => Ordering::Relaxed,
        Ordering::SeqCst => Ordering::SeqCst,
        Ordering::Acquire => Ordering::Acquire,
        Ordering::AcqRel => Ordering::Acquire,
        _ => Ordering::SeqCst,
    }
}

/// Whether the lock bit is set in `state`
pub open spec fn locked_bit(state: u8) -> bool {
    state & LOCK_BIT != 0
}

/// The tag stored in `state`
pub open spec fn tag_bits(state: u8) -> u8 {
    state & MASK
}

/// The bit facts about tagged spin lock words that the operations rely on:
/// `s` is a word, `t` a tag
pub proof fn lemma_tagged_spin_bits(s: u8, t: u8)
    by (bit_vector)
    ensures
        s == (if s & 0x80u8 != 0u8 { 0x80u8 } else { 0u8 }) | (s & 0x7fu8),
        s & 0x7fu8 <= 0x7fu8,
        (t & 0x7fu8) & 0x80u8 == 0u8,
        (t & 0x7fu8) & 0x7fu8 == t & 0x7fu8,
        (s & ((t & 0x7fu8) | !0x7fu8)) & 0x7fu8 == (s & 0x7fu8) & t,
        ((s & ((t & 0x7fu8) | !0x7fu8)) & 0x80u8 != 0u8) == (s & 0x80u8 != 0u8),
        (s | (t & 0x7fu8)) & 0x7fu8 == (s & 0x7fu8) | (t & 0x7fu8),
        ((s | (t & 0x7fu8)) & 0x80u8 != 0u8) == (s & 0x80u8 != 0u8),
        ((s & !0x7fu8) | (t & 0x7fu8)) & 0x7fu8 == t & 0x7fu8,
        (((s & !0x7fu8) | (t & 0x7fu8)) & 0x80u8 != 0u8) == (s & 0x80u8 != 0u8),
        (s | 0x80u8) & 0x80u8 != 0u8,
        (s | 0x80u8) & 0x7fu8 == s & 0x7fu8,
        (s & !0x80u8) & 0x80u8 == 0u8,
        (s & !0x80u8) & 0x7fu8 == s & 0x7fu8,
{
}

/// A tagged spin lock that can store up to `TAG_BITS` bits in the lower bits of the lock
pub struct TaggedSpinLock {
    state: u8,
}

impl TaggedSpinLock {
    /// The number of bits that this mutex can store
    ///
    /// This is guaranteed to be at least 4
    pub const TAG_BITS: u8 = 7;

    /// The lock word
    pub closed spec fn word(&self) -> u8 {
        self.state
    }

    /// Whether the lock is held
    pub open spec fn locked(&self) -> bool {
        locked_bit(self.word())
    }

    /// The stored tag
    pub open spec fn tag_value(&self) -> u8 {
        tag_bits(self.word())
    }

    /// A lock word is its lock bit and its tag
    pub proof fn lemma_word_parts(&self)
        ensures
            self.word() == (if self.locked() { LOCK_BIT } else { 0u8 }) | self.tag_value(),
            self.tag_value() <= MASK,
    {
        lemma_tagged_spin_bits(self.state, 0u8);
    }

    /// create a new tagged spin lock
    pub fn new() -> (r: Self)
        ensures
            r.word() == 0,
    {
        TaggedSpinLock { state: 0 }
    }

    /// create a new tagged spin lock with the given inital tag
    pub fn with_tag(tag: u8) -> (r: Self)
        ensures
            r.word() == tag & MASK,
            !r.locked(),
            r.tag_value() == tag & MASK,
    {
        proof {
            lemma_tagged_spin_bits(0u8, tag);
        }
        TaggedSpinLock { state: tag & MASK }
    }

    /// Get the tag
    pub fn tag(&self, order: Ordering) -> (r: u8)
        ensures
            r == self.tag_value(),
    {
        self.state & MASK
    }

    /// perform a bit-wise and with the given tag and the stored tag
    ///
    /// returns the old tag
    pub fn and_tag(&mut self, tag: u8, order: Ordering) -> (r: u8)
        ensures
            r == old(self).tag_value(),
            final(self).tag_value() == old(self).tag_value() & tag,
            final(self).locked() == old(self).locked(),
    {
        let mask: u8 = (tag & MASK) | !MASK;
        let state: u8 = self.state;
        self.state = state & mask;
        proof {
            lemma_tagged_spin_bits(state, tag);
        }
        state & MASK
    }

    /// perform a bit-wise or with the given tag and the stored tag
    ///
    /// returns the old tag
    pub fn or_tag(&mut self, tag: u8, order: Ordering) -> (r: u8)
        ensures
            r == old(self).tag_value(),
            final(self).tag_value() == old(self).tag_value() | (tag & MASK),
            final(self).locked() == old(self).locked(),
    {
        let bits: u8 = tag & MASK;
        let state: u8 = self.state;
        self.state = state | bits;
        proof {
            lemma_tagged_spin_bits(state, tag);
        }
        state & MASK
    }

    /// swap the tag with the given tag
    ///
    /// returns the old tag
    pub fn swap_tag(&mut self, tag: u8, order: Ordering) -> (r: u8)
        ensures
            r == old(self).tag_value(),
            final(self).tag_value() == tag & MASK,
            final(self).locked() == old(self).locked(),
    {
        self.exchange_tag(tag, order, strongest_failure_ordering(order))
    }

    /// swap the tag with the given tag
    ///
    /// returns the old tag
    pub fn exchange_tag(&mut self, tag: u8, success: Ordering, failure: Ordering) -> (r: u8)
        ensures
            r == old(self).tag_value(),
            final(self).tag_value() == tag & MASK,
            final(self).locked() == old(self).locked(),
    {
        let state: u8 = self.state;
        let n: u8 = (state & !MASK) | (tag & MASK);
        self.state = n;
        proof {
            lemma_tagged_spin_bits(state, tag);
        }
        state & MASK
    }

    /// update the tag with the given function; returns the old tag, as `Ok`
    /// if the function gave a new tag and `Err` if it gave `None`
    pub fn update_tag<F: FnMut(u8) -> Option<u8>>(&mut self, success: Ordering, failure: Ordering, f: F) -> (r: Result<u8, u8>)
        requires
            f.requires((old(self).tag_value(),)),
        ensures
            r matches Ok(x) ==> x == old(self).tag_value() && exists|t: u8|
                f.ensures((old(self).tag_value(),), Some(t)) && #[trigger] final(self).tag_value() == t & MASK,
            r matches Err(x) ==> x == old(self).tag_value() && f.ensures((old(self).tag_value(),), None)
                && final(self).tag_value() == old(self).tag_value(),
            final(self).locked() == old(self).locked(),
    {
        let mut f = f;
        let state: u8 = self.state;
        let current: u8 = state & MASK;
        match f(current) {
            Some(tag) => {
                let n: u8 = (state & !MASK) | (tag & MASK);
                self.state = n;
                proof {
                    lemma_tagged_spin_bits(state, tag);
                }
                Ok(current)
            },
            None => Err(current),
        }
    }

    /// Create a new raw tagged mutex
    pub fn raw_mutex() -> (r: RawMutex)
        ensures
            r.lock_view().word() == 0,
    {
        crate::mutex::raw::Mutex::from_raw(Self::new())
    }

    /// Create a new tagged mutex
    pub fn mutex<T>(value: T) -> (r: Mutex<T>)
        ensures
            r.lock_view().word() == 0,
            r.value_view() == value,
    {
        crate::mutex::Mutex::from_raw_parts(Self::raw_mutex(), value)
    }

    /// One step of the spinning slow path for the observed word `state`: the
    /// word to swap in when the lock is free, or `None` to spin and look again
    pub fn lock_slow_step(state: u8) -> (r: Option<u8>)
        ensures
            r is Some <==> !locked_bit(state),
            r matches Some(n) ==> n == state | LOCK_BIT,
    {
        if state & LOCK_BIT == 0 {
            Some(state | LOCK_BIT)
        } else {
            None
        }
    }
}

impl crate::Init for TaggedSpinLock {
    open spec fn is_init(&self) -> bool {
        self.word() == 0
    }

    fn init() -> (r: Self) {
        TaggedSpinLock { state: 0 }
    }
}

impl crate::RawLockInfo for TaggedSpinLock {
    type ExclusiveGuardTraits = ();
    type ShareGuardTraits = ();
}

impl crate::mutex::RawMutex for TaggedSpinLock {
    proof fn lemma_init_available(&self) {
        assert(0u8 & LOCK_BIT == 0u8) by (bit_vector);
    }
}

impl RawExclusiveLock for TaggedSpinLock {
    open spec fn exc_wf(&self) -> bool {
        true
    }

    open spec fn exc_count(&self) -> nat {
        if self.locked() { 1 } else { 0 }
    }

    open spec fn exc_available(&self) -> bool {
        !self.locked()
    }

    proof fn lemma_available_unheld(&self) {
    }

    /// Bumping leaves the lock word as it is
    open spec fn exc_bumped(&self) -> Self {
        *self
    }

    fn exc_lock(&mut self)
        ensures
            final(self).word() == old(self).word() | LOCK_BIT,
            final(self).tag_value() == old(self).tag_value(),
    {
        let ok = self.exc_try_lock();
    }

    fn exc_try_lock(&mut self) -> (r: bool)
        ensures
            r ==> final(self).word() == old(self).word() | LOCK_BIT,
            final(self).tag_value() == old(self).tag_value(),
    {
        let state: u8 = self.state;
        proof {
            lemma_tagged_spin_bits(state, 0u8);
        }
        match Self::lock_slow_step(state) {
            Some(n) => {
                self.state = n;
                true
            },
            None => false,
        }
    }

    fn exc_unlock(&mut self)
        ensures
            final(self).word() == old(self).word() & !LOCK_BIT,
            final(self).tag_value() == old(self).tag_value(),
    {
        let state: u8 = self.state;
        self.state = state & !LOCK_BIT;
        proof {
            lemma_tagged_spin_bits(state, 0u8);
        }
    }

    fn exc_bump(&mut self)
        ensures
            *final(self) == *old(self),
    {
    }
}

} // verus!
