//! a tagged lock that parks waiting threads
use vstd::prelude::*;
use std::sync::atomic::Ordering;
use crate::exclusive_lock::{RawExclusiveLock, RawExclusiveLockFair, RawExclusiveLockTimed};
use crate::mutex::tagged_spin::strongest_failure_ordering;
use crate::park::{
    apply_u8, apply_update_u8, LockSlowAction, UnparkDecision, UnparkOutcome, WordUpdate,
    TOKEN_HANDOFF, TOKEN_NORMAL,
};

verus! {

/// The lock bit of a [`TaggedLock`] word: the highest bit
pub const LOCK_BIT: u8 = 0b1000_0000;

/// The park bit of a [`TaggedLock`] word: the bit below the lock bit
pub const PARK_BIT: u8 = 0b0100_0000;

/// The tag bits of a [`TaggedLock`] word: all bits below the park bit
pub const MASK: u8 = 0b0011_1111;

/// A tagged raw mutex that can store up to `TAG_BITS` bits in the lower bits of the lock
pub type RawMutex = crate::mutex::raw::Mutex<TaggedLock>;

/// A tagged mutex that can store up to `TAG_BITS` bits in the lower bits of the lock
pub type Mutex<T> = crate::mutex::Mutex<TaggedLock, T>;

/// Whether the lock bit is set in `state`
pub open spec fn locked_bit(state: u8) -> bool {
    state & LOCK_BIT != 0
}

/// Whether the park bit is set in `state`
pub open spec fn parked_bit(state: u8) -> bool {
    state & PARK_BIT != 0
}

/// The tag stored in `state`
pub open spec fn tag_bits(state: u8) -> u8 {
    state & MASK
}

/// The bit facts about tagged lock words that the operations rely on:
/// `s` is a word, `t` a tag
pub proof fn lemma_tagged_bits(s: u8, t: u8)
    by (bit_vector)
    ensures
        s == (if s & 0x80u8 != 0u8 { 0x80u8 } else { 0u8 }) | (if s & 0x40u8 != 0u8 { 0x40u8 } else { 0u8 }) | (s & 0x3fu8),
        s & 0x3fu8 <= 0x3fu8,
        (t & 0x3fu8) & 0x80u8 == 0u8,
        (t & 0x3fu8) & 0x40u8 == 0u8,
        (t & 0x3fu8) & 0x3fu8 == t & 0x3fu8,
        (s & ((t & 0x3fu8) | !0x3fu8)) & 0x3fu8 == (s & 0x3fu8) & t,
        ((s & ((t & 0x3fu8) | !0x3fu8)) & 0x80u8 != 0u8) == (s & 0x80u8 != 0u8),
        ((s & ((t & 0x3fu8) | !0x3fu8)) & 0x40u8 != 0u8) == (s & 0x40u8 != 0u8),
        (s | (t & 0x3fu8)) & 0x3fu8 == (s & 0x3fu8) | (t & 0x3fu8),
        ((s | (t & 0x3fu8)) & 0x80u8 != 0u8) == (s & 0x80u8 != 0u8),
        ((s | (t & 0x3fu8)) & 0x40u8 != 0u8) == (s & 0x40u8 != 0u8),
        ((s & !0x3fu8) | (t & 0x3fu8)) & 0x3fu8 == t & 0x3fu8,
        (((s & !0x3fu8) | (t & 0x3fu8)) & 0x80u8 != 0u8) == (s & 0x80u8 != 0u8),
        (((s & !0x3fu8) | (t & 0x3fu8)) & 0x40u8 != 0u8) == (s & 0x40u8 != 0u8),
        s & !(0x80u8 | 0x40u8) == s & 0x3fu8,
        (s & 0x40u8 == 0u8) ==> s & !0x80u8 & !0u8 == s & !0x80u8,
        s & 0x3fu8 == s & !0x80u8 & !0x40u8,
        (s | 0x40u8) & !0x40u8 == s & !0x40u8,
        (s | 0x80u8) & 0x80u8 != 0u8,
        (s & !0x80u8 & !0x40u8) & 0x80u8 == 0u8,
        (s & !0x80u8 & !0u8) & 0x80u8 == 0u8,
        (s & 0x80u8 != 0u8) ==> (s & 0x3fu8) & 0x80u8 == 0u8,
        (s & 0x80u8 != 0u8) ==> (s & 0x3fu8) | 0x80u8 == s & !0x40u8,
        (s & 0x80u8 != 0u8) ==> (s & !0x40u8) & 0x80u8 != 0u8,
{
}

/// Locking, unlocking, bumping and timing out leave the tag as it was: each
/// of them only sets the lock bit of the word `s`, or clears its lock and park
/// bits
pub proof fn lock_ops_keep_tag(s: u8)
    by (bit_vector)
    ensures
        tag_bits(s | LOCK_BIT) == tag_bits(s),
        tag_bits(s & !LOCK_BIT & !PARK_BIT) == tag_bits(s),
        tag_bits(s & !LOCK_BIT & !0u8) == tag_bits(s),
        tag_bits(s & !PARK_BIT) == tag_bits(s),
        tag_bits(s | PARK_BIT) == tag_bits(s),
        tag_bits(s & !LOCK_BIT) == tag_bits(s),
{
}

/// One step a lock word takes while it is locked, unlocked, parked on or
/// timed out on: the lock bit or the park bit is set, or the lock bit, the
/// park bit or both are cleared
pub open spec fn lock_step(s: u8, t: u8) -> bool {
    ||| t == s | LOCK_BIT
    ||| t == s | PARK_BIT
    ||| t == s & !LOCK_BIT
    ||| t == s & !PARK_BIT
    ||| t == s & !LOCK_BIT & !PARK_BIT
}

/// However many locking steps a word goes through, its tag stays as it was:
/// `words` is the run of words, each one step on from the one before
pub proof fn lock_runs_keep_tag(words: Seq<u8>)
    requires
        forall|i: int| 0 <= i < words.len() - 1 ==> #[trigger] lock_step(words[i], words[i + 1]),
    ensures
        forall|i: int| 0 <= i < words.len() ==> tag_bits(#[trigger] words[i]) == tag_bits(words[0]),
    decreases words.len(),
{
    if words.len() > 1 {
        let init = words.drop_last();
        assert forall|i: int| 0 <= i < init.len() - 1 implies #[trigger] lock_step(init[i], init[i + 1]) by {
            assert(lock_step(words[i], words[i + 1]));
        }
        lock_runs_keep_tag(init);
        let j: int = words.len() - 2;
        assert(lock_step(words[j], words[j + 1]));
        lock_ops_keep_tag(words[j]);
        assert(tag_bits(init[j]) == tag_bits(init[0]));
        assert forall|i: int| 0 <= i < words.len() implies tag_bits(#[trigger] words[i]) == tag_bits(words[0]) by {
            if i < words.len() - 1 {
                assert(tag_bits(init[i]) == tag_bits(init[0]));
            }
        }
    }
}

/// A tagged lock that can store up to `TAG_BITS` bits in the lower bits of the lock
pub struct TaggedLock {
    state: u8,
}

impl TaggedLock {
    /// The number of bits that this mutex can store
    ///
    /// This is guaranteed to be at least 4
    pub const TAG_BITS: u8 = 6;

    /// The lock word
    pub closed spec fn word(&self) -> u8 {
        self.state
    }

    /// Whether the lock is held
    pub open spec fn locked(&self) -> bool {
        locked_bit(self.word())
    }

    /// Whether a thread is marked as parked on the lock
    pub open spec fn parked(&self) -> bool {
        parked_bit(self.word())
    }

    /// The stored tag
    pub open spec fn tag_value(&self) -> u8 {
        tag_bits(self.word())
    }

    /// A lock word is its lock bit and its tag
    pub proof fn lemma_word_parts(&self)
        ensures
            self.word() == (if self.locked() { LOCK_BIT } else { 0u8 }) | (if self.parked() { PARK_BIT } else { 0u8 }) | self.tag_value(),
            self.tag_value() <= MASK,
    {
        lemma_tagged_bits(self.state, 0u8);
    }

    /// create a new tagged lock
    pub fn new() -> (r: Self)
        ensures
            r.word() == 0,
    {
        TaggedLock { state: 0 }
    }

    /// create a new tagged lock with the given inital tag
    pub fn with_tag(tag: u8) -> (r: Self)
        ensures
            r.word() == tag & MASK,
            !r.locked(),
            !r.parked(),
            r.tag_value() == tag & MASK,
    {
        proof {
            lemma_tagged_bits(0u8, tag);
        }
        TaggedLock { state: tag & MASK }
    }

    /// Get the tag
    pub fn tag(&self, order: Ordering) -> (r: u8)
        ensures
            r == self.tag_value(),
    {
        self.state & MASK
    }

    /// perform a bit-wise and with the given tag and the stored tag
    ///
    /// returns the old tag
    pub fn and_tag(&mut self, tag: u8, order: Ordering) -> (r: u8)
        ensures
            r == old(self).tag_value(),
            final(self).tag_value() == old(self).tag_value() & tag,
            final(self).locked() == old(self).locked(),
            final(self).parked() == old(self).parked(),
    {
        let mask: u8 = (tag & MASK) | !MASK;
        let state: u8 = self.state;
        self.state = state & mask;
        proof {
            lemma_tagged_bits(state, tag);
        }
        state & MASK
    }

    /// perform a bit-wise or with the given tag and the stored tag
    ///
    /// returns the old tag
    pub fn or_tag(&mut self, tag: u8, order: Ordering) -> (r: u8)
        ensures
            r == old(self).tag_value(),
            final(self).tag_value() == old(self).tag_value() | (tag & MASK),
            final(self).locked() == old(self).locked(),
            final(self).parked() == old(self).parked(),
    {
        let bits: u8 = tag & MASK;
        let state: u8 = self.state;
        self.state = state | bits;
        proof {
            lemma_tagged_bits(state, tag);
        }
        state & MASK
    }

    /// swap the tag with the given tag
    ///
    /// returns the old tag
    pub fn swap_tag(&mut self, tag: u8, order: Ordering) -> (r: u8)
        ensures
            r == old(self).tag_value(),
            final(self).tag_value() == tag & MASK,
            final(self).locked() == old(self).locked(),
            final(self).parked() == old(self).parked(),
    {
        self.exchange_tag(tag, order, strongest_failure_ordering(order))
    }

    /// swap the tag with the given tag
    ///
    /// returns the old tag
    pub fn exchange_tag(&mut self, tag: u8, success: Ordering, failure: Ordering) -> (r: u8)
        ensures
            r == old(self).tag_value(),
            final(self).tag_value() == tag & MASK,
            final(self).locked() == old(self).locked(),
            final(self).parked() == old(self).parked(),
    {
        let state: u8 = self.state;
        let n: u8 = (state & !MASK) | (tag & MASK);
        self.state = n;
        proof {
            lemma_tagged_bits(state, tag);
        }
        state & MASK
    }

    /// update the tag with the given function; returns the old tag, as `Ok`
    /// if the function gave a new tag and `Err` if it gave `None`
    pub fn update_tag<F: FnMut(u8) -> Option<u8>>(&mut self, success: Ordering, failure: Ordering, f: F) -> (r: Result<u8, u8>)
        requires
            f.requires((old(self).tag_value(),)),
        ensures
            r matches Ok(x) ==> x == old(self).tag_value() && exists|t: u8|
                f.ensures((old(self).tag_value(),), Some(t)) && #[trigger] final(self).tag_value() == t & MASK,
            r matches Err(x) ==> x == old(self).tag_value() && f.ensures((old(self).tag_value(),), None)
                && final(self).tag_value() == old(self).tag_value(),
            final(self).locked() == old(self).locked(),
            final(self).parked() == old(self).parked(),
    {
        let mut f = f;
        let state: u8 = self.state;
        let current: u8 = state & MASK;
        match f(current) {
            Some(tag) => {
                let n: u8 = (state & !MASK) | (tag & MASK);
                self.state = n;
                proof {
                    lemma_tagged_bits(state, tag);
                }
                Ok(current)
            },
            None => Err(current),
        }
    }

    /// Create a new raw tagged mutex
    pub fn raw_mutex() -> (r: RawMutex)
        ensures
            r.lock_view().word() == 0,
    {
        crate::mutex::raw::Mutex::from_raw(Self::new())
    }

    /// Create a new tagged mutex
    pub fn mutex<T>(value: T) -> (r: Mutex<T>)
        ensures
            r.lock_view().word() == 0,
            r.value_view() == value,
    {
        crate::mutex::Mutex::from_raw_parts(Self::raw_mutex(), value)
    }

    /// The word a successful acquisition swaps in for `state`, if the lock is free
    pub fn try_lock_word(state: u8) -> (r: Option<u8>)
        ensures
            r is Some <==> !locked_bit(state),
            r matches Some(n) ==> n == state | LOCK_BIT,
    {
        if state & LOCK_BIT == 0 {
            Some(state | LOCK_BIT)
        } else {
            None
        }
    }

    /// The word the fast unlock path swaps in for `state`: without a parked
    /// thread only the lock bit is cleared, with one the slow path is taken
    pub fn unlock_fast_word(state: u8) -> (r: Option<u8>)
        ensures
            r is Some <==> !parked_bit(state),
            r matches Some(n) ==> n == state & !LOCK_BIT,
    {
        if state & PARK_BIT == 0 {
            Some(state & !LOCK_BIT)
        } else {
            None
        }
    }

    /// One step of the locking slow path for the observed word `state`
    ///
    /// `spin_exhausted` tells whether the spin budget has run out.
    pub fn lock_slow_step(state: u8, spin_exhausted: bool) -> (r: LockSlowAction<u8>)
        ensures
            !locked_bit(state) ==> r == LockSlowAction::Acquire(state | LOCK_BIT),
            locked_bit(state) && !parked_bit(state) && !spin_exhausted ==> r is Spin,
            locked_bit(state) && !parked_bit(state) && spin_exhausted
                ==> r == LockSlowAction::MarkParked(state | PARK_BIT),
            locked_bit(state) && parked_bit(state) ==> r is Park,
    {
        if state & LOCK_BIT == 0 {
            LockSlowAction::Acquire(state | LOCK_BIT)
        } else if state & PARK_BIT == 0 {
            if spin_exhausted {
                LockSlowAction::MarkParked(state | PARK_BIT)
            } else {
                LockSlowAction::Spin
            }
        } else {
            LockSlowAction::Park
        }
    }

    /// The check the parking lot runs before parking a thread: the lock must
    /// still be held with its park bit set, whatever the tag
    pub fn park_validate(state: u8) -> (r: bool)
        ensures
            r == (state & !MASK == LOCK_BIT | PARK_BIT),
    {
        state & !MASK == LOCK_BIT | PARK_BIT
    }

    /// The update made when a parked thread times out: the last parked thread
    /// clears the park bit
    pub fn timed_out_update(was_last_thread: bool) -> (r: WordUpdate<u8>)
        ensures
            was_last_thread ==> r == WordUpdate::Clear(PARK_BIT),
            !was_last_thread ==> r is Keep,
    {
        if was_last_thread {
            WordUpdate::Clear(PARK_BIT)
        } else {
            WordUpdate::Keep
        }
    }

    /// What the unlocking slow path does once the parking lot has unparked
    /// (or failed to unpark) one thread; the tag is never touched
    pub fn unlock_slow_decision(result: &UnparkOutcome, force_fair: bool) -> (r: UnparkDecision<u8>)
        ensures
            result.unparked_threads != 0 && force_fair ==> r.token == TOKEN_HANDOFF,
            result.unparked_threads == 0 ==> r.token == TOKEN_NORMAL,
            result.hands_off(force_fair) ==> r.token == TOKEN_HANDOFF,
            result.hands_off(force_fair) && !result.have_more_threads ==> r.update == WordUpdate::Clear(PARK_BIT),
            result.hands_off(force_fair) && result.have_more_threads ==> r.update is Keep,
            !result.hands_off(force_fair) ==> r.token == TOKEN_NORMAL,
            !result.hands_off(force_fair) && result.have_more_threads ==> r.update == WordUpdate::Clear(LOCK_BIT),
            !result.hands_off(force_fair) && !result.have_more_threads
                ==> r.update == WordUpdate::Clear(LOCK_BIT | PARK_BIT),
    {
        if result.unparked_threads != 0 && (force_fair || result.be_fair) {
            if !result.have_more_threads {
                UnparkDecision { update: WordUpdate::Clear(PARK_BIT), token: TOKEN_HANDOFF }
            } else {
                UnparkDecision { update: WordUpdate::Keep, token: TOKEN_HANDOFF }
            }
        } else if result.have_more_threads {
            UnparkDecision { update: WordUpdate::Clear(LOCK_BIT), token: TOKEN_NORMAL }
        } else {
            UnparkDecision { update: WordUpdate::Clear(LOCK_BIT | PARK_BIT), token: TOKEN_NORMAL }
        }
    }

    /// The unlocking slow path once the parking lot has unparked (or failed
    /// to unpark) one thread as `result` reports: the lock word takes the
    /// decided update and the token for the unparked thread is returned. A
    /// lock handed off stays locked, now for the unparked thread; the tag is never touched.
    pub fn unlock_slow_with(&mut self, result: &UnparkOutcome, force_fair: bool) -> (r: usize)
        ensures
            result.unparked_threads != 0 && force_fair ==> r == TOKEN_HANDOFF,
            result.hands_off(force_fair) ==> r == TOKEN_HANDOFF
                && final(self).word() == (if result.have_more_threads { old(self).word() } else { old(self).word() & !PARK_BIT }),
            !result.hands_off(force_fair) ==> r == TOKEN_NORMAL
                && final(self).word() == (if result.have_more_threads { old(self).word() & !LOCK_BIT } else { old(self).word() & !(LOCK_BIT | PARK_BIT) }),
    {
        let decision = Self::unlock_slow_decision(result, force_fair);
        let state: u8 = self.state;
        self.state = apply_update_u8(&decision.update, state);
        decision.token
    }

    /// The unlocking slow path: no other thread is running, so the parking
    /// lot has nobody to unpark
    fn unlock_slow(&mut self, force_fair: bool)
        ensures
            final(self).word() == old(self).word() & MASK,
    {
        let nobody = UnparkOutcome::nobody_parked();
        let state: u8 = self.state;
        self.unlock_slow_with(&nobody, force_fair);
        proof {
            lemma_tagged_bits(state, 0u8);
        }
    }

    /// Clears the lock bit, through the fast path when nobody is parked
    fn unlock_with(&mut self, force_fair: bool)
        ensures
            final(self).word() == old(self).word() & !LOCK_BIT & !(if old(self).parked() { PARK_BIT } else { 0u8 }),
    {
        let state: u8 = self.state;
        match Self::unlock_fast_word(state) {
            Some(n) => {
                self.state = n;
                proof {
                    lemma_tagged_bits(state, 0u8);
                }
            },
            None => {
                self.unlock_slow(force_fair);
                proof {
                    lemma_tagged_bits(state, 0u8);
                }
            },
        }
    }

    /// The failed end of a timed slow path: the thread marked itself parked,
    /// found nobody to release the lock, and, as the last parked thread,
    /// cleared the park bit again
    fn lock_slow_timed_out(&mut self)
        ensures
            final(self).word() == old(self).word() & !PARK_BIT,
    {
        let update = Self::timed_out_update(true);
        let state: u8 = self.state;
        self.state = apply_update_u8(&update, state | PARK_BIT);
        proof {
            lemma_tagged_bits(state, 0u8);
        }
    }
}

impl crate::Init for TaggedLock {
    open spec fn is_init(&self) -> bool {
        self.word() == 0
    }

    fn init() -> (r: Self) {
        TaggedLock { state: 0 }
    }
}

impl crate::RawLockInfo for TaggedLock {
    type ExclusiveGuardTraits = ();
    type ShareGuardTraits = ();
}

impl crate::RawTimedLock for TaggedLock {
    type Instant = std::time::Instant;
    type Duration = core::time::Duration;
}

impl crate::mutex::RawMutex for TaggedLock {
    proof fn lemma_init_available(&self) {
        assert(0u8 & LOCK_BIT == 0u8) by (bit_vector);
    }
}

impl RawExclusiveLock for TaggedLock {
    open spec fn exc_wf(&self) -> bool {
        true
    }

    open spec fn exc_count(&self) -> nat {
        if self.locked() { 1 } else { 0 }
    }

    open spec fn exc_available(&self) -> bool {
        !self.locked()
    }

    proof fn lemma_available_unheld(&self) {
    }

    /// Bumping a lock with a parked thread releases it to that thread and takes
    /// it back; the park bit is then clear
    closed spec fn exc_bumped(&self) -> Self {
        if self.parked() { TaggedLock { state: self.state & !PARK_BIT } } else { *self }
    }

    fn exc_lock(&mut self)
        ensures
            final(self).word() == old(self).word() | LOCK_BIT,
            final(self).tag_value() == old(self).tag_value(),
    {
        proof {
            lock_ops_keep_tag(self.state);
        }
        let ok = self.exc_try_lock();
    }

    fn exc_try_lock(&mut self) -> (r: bool)
        ensures
            r ==> final(self).word() == old(self).word() | LOCK_BIT,
            final(self).tag_value() == old(self).tag_value(),
    {
        proof {
            lock_ops_keep_tag(self.state);
        }
        let state: u8 = self.state;
        proof {
            lemma_tagged_bits(state, 0u8);
        }
        match Self::try_lock_word(state) {
            Some(n) => {
                self.state = n;
                true
            },
            None => false,
        }
    }

    fn exc_unlock(&mut self)
        ensures
            final(self).word() == old(self).word() & !LOCK_BIT & !(if old(self).parked() { PARK_BIT } else { 0u8 }),
            final(self).tag_value() == old(self).tag_value(),
    {
        proof {
            lock_ops_keep_tag(self.state);
        }
        self.unlock_with(false);
        proof {
            lemma_tagged_bits(old(self).state, 0u8);
        }
    }

    fn exc_bump(&mut self)
        ensures
            !old(self).parked() ==> final(self).word() == old(self).word(),
            old(self).parked() ==> final(self).word() == old(self).word() & !PARK_BIT,
            final(self).tag_value() == old(self).tag_value(),
    {
        proof {
            lock_ops_keep_tag(self.state);
        }
        let state: u8 = self.state;
        if state & PARK_BIT != 0 {
            self.unlock_slow(false);
            proof {
                lemma_tagged_bits(state, 0u8);
            }
            self.exc_lock();
        }
    }
}

impl RawExclusiveLockFair for TaggedLock {
    closed spec fn exc_bumped_fair(&self) -> Self {
        if self.parked() { TaggedLock { state: self.state & !PARK_BIT } } else { *self }
    }

    fn exc_unlock_fair(&mut self)
        ensures
            final(self).word() == old(self).word() & !LOCK_BIT & !(if old(self).parked() { PARK_BIT } else { 0u8 }),
            final(self).tag_value() == old(self).tag_value(),
    {
        proof {
            lock_ops_keep_tag(self.state);
        }
        self.unlock_with(true);
        proof {
            lemma_tagged_bits(old(self).state, 0u8);
        }
    }

    fn exc_bump_fair(&mut self)
        ensures
            !old(self).parked() ==> final(self).word() == old(self).word(),
            old(self).parked() ==> final(self).word() == old(self).word() & !PARK_BIT,
            final(self).tag_value() == old(self).tag_value(),
    {
        proof {
            lock_ops_keep_tag(self.state);
        }
        let state: u8 = self.state;
        if state & PARK_BIT != 0 {
            self.unlock_slow(true);
            proof {
                lemma_tagged_bits(state, 0u8);
            }
            self.exc_lock();
        }
    }
}

impl RawExclusiveLockTimed for TaggedLock {
    fn exc_try_lock_until(&mut self, instant: std::time::Instant) -> (r: bool)
        ensures
            r ==> final(self).word() == old(self).word() | LOCK_BIT,
            !r ==> final(self).word() == old(self).word() & !PARK_BIT,
            final(self).tag_value() == old(self).tag_value(),
    {
        proof {
            lock_ops_keep_tag(self.state);
        }
        if self.exc_try_lock() {
            true
        } else {
            self.lock_slow_timed_out();
            proof {
                lemma_tagged_bits(old(self).state, 0u8);
            }
            false
        }
    }

    fn exc_try_lock_for(&mut self, duration: core::time::Duration) -> (r: bool)
        ensures
            r ==> final(self).word() == old(self).word() | LOCK_BIT,
            !r ==> final(self).word() == old(self).word() & !PARK_BIT,
            final(self).tag_value() == old(self).tag_value(),
    {
        proof {
            lock_ops_keep_tag(self.state);
        }
        if self.exc_try_lock() {
            true
        } else {
            self.lock_slow_timed_out();
            proof {
                lemma_tagged_bits(old(self).state, 0u8);
            }
            false
        }
    }
}

} // verus!
