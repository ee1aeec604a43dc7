//! an adaptive raw mutex: spins for a while, then parks its thread
use vstd::prelude::*;
use crate::exclusive_lock::{RawExclusiveLock, RawExclusiveLockFair, RawExclusiveLockTimed};
use crate::park::{
    apply_u8, apply_update_u8, LockSlowAction, UnparkDecision, UnparkOutcome, WordUpdate,
    TOKEN_HANDOFF, TOKEN_NORMAL,
};

verus! {

/// The lock bit of an [`AdaptiveLock`] word
pub const LOCK_BIT: u8 = 0b01;

/// The park bit of an [`AdaptiveLock`] word: some thread is (or is about to be) parked
pub const PARK_BIT: u8 = 0b10;

/// an adaptive raw mutex
pub type RawMutex = crate::mutex::raw::Mutex<AdaptiveLock>;

/// an adaptive mutex
pub type Mutex<T> = crate::mutex::Mutex<AdaptiveLock, T>;

/// Whether the lock bit is set in `state`
pub open spec fn locked_bit(state: u8) -> bool {
    state & LOCK_BIT != 0
}

/// Whether the park bit is set in `state`
pub open spec fn parked_bit(state: u8) -> bool {
    state & PARK_BIT != 0
}

/// The bit facts about adaptive lock words that the operations rely on
pub proof fn lemma_adaptive_bits(s: u8)
    by (bit_vector)
    ensures
        (s | 2u8) & !2u8 == s & !2u8,
        (s | 1u8) & 1u8 != 0u8,
        0u8 & 1u8 == 0u8,
        0u8 | 1u8 == 1u8,
        1u8 & 1u8 != 0u8,
        (s & 1u8 != 0u8) ==> (s & !2u8) & 1u8 != 0u8,
        (s | 2u8) & 2u8 != 0u8,
        ((s | 2u8) & 1u8 != 0u8) == (s & 1u8 != 0u8),
{
}

/// An adaptive mutex lock that parks waiting threads in a parking lot
pub struct AdaptiveLock {
    state: u8,
}

impl AdaptiveLock {
    /// The lock word
    pub closed spec fn word(&self) -> u8 {
        self.state
    }

    /// Whether the lock is held
    pub open spec fn locked(&self) -> bool {
        locked_bit(self.word())
    }

    /// Whether a thread is marked as parked on the lock
    pub open spec fn parked(&self) -> bool {
        parked_bit(self.word())
    }

    /// Create a new adaptive mutex lock
    pub fn new() -> (r: Self)
        ensures
            r.word() == 0,
    {
        AdaptiveLock { state: 0 }
    }

    /// Create a new raw mutex
    pub fn raw_mutex() -> (r: RawMutex)
        ensures
            r.lock_view().word() == 0,
    {
        crate::mutex::raw::Mutex::from_raw(Self::new())
    }

    /// Create a new mutex
    pub fn mutex<T>(value: T) -> (r: Mutex<T>)
        ensures
            r.lock_view().word() == 0,
            r.value_view() == value,
    {
        crate::mutex::Mutex::from_raw_parts(Self::raw_mutex(), value)
    }

    /// The word a successful acquisition swaps in for `state`, if the lock is free
    pub fn try_lock_word(state: u8) -> (r: Option<u8>)
        ensures
            r is Some <==> !locked_bit(state),
            r matches Some(n) ==> n == state | LOCK_BIT,
    {
        if state & LOCK_BIT == 0 {
            Some(state | LOCK_BIT)
        } else {
            None
        }
    }

    /// The word the fast unlock path swaps in for `state`: only a word with the
    /// lock bit alone can be released without the parking lot
    pub fn unlock_fast_word(state: u8) -> (r: Option<u8>)
        ensures
            r is Some <==> state == LOCK_BIT,
            r matches Some(n) ==> n == 0,
    {
        if state == LOCK_BIT {
            Some(0)
        } else {
            None
        }
    }

    /// One step of the locking slow path for the observed word `state`
    ///
    /// `spin_exhausted` tells whether the spin budget has run out.
    pub fn lock_slow_step(state: u8, spin_exhausted: bool) -> (r: LockSlowAction<u8>)
        ensures
            !locked_bit(state) ==> r == LockSlowAction::Acquire(state | LOCK_BIT),
            locked_bit(state) && !parked_bit(state) && !spin_exhausted ==> r is Spin,
            locked_bit(state) && !parked_bit(state) && spin_exhausted
                ==> r == LockSlowAction::MarkParked(state | PARK_BIT),
            locked_bit(state) && parked_bit(state) ==> r is Park,
    {
        if state & LOCK_BIT == 0 {
            LockSlowAction::Acquire(state | LOCK_BIT)
        } else if state & PARK_BIT == 0 {
            if spin_exhausted {
                LockSlowAction::MarkParked(state | PARK_BIT)
            } else {
                LockSlowAction::Spin
            }
        } else {
            LockSlowAction::Park
        }
    }

    /// The check the parking lot runs before parking a thread: the lock must
    /// still be held with its park bit set
    pub fn park_validate(state: u8) -> (r: bool)
        ensures
            r == (state == LOCK_BIT | PARK_BIT),
    {
        state == LOCK_BIT | PARK_BIT
    }

    /// The update made when a parked thread times out: the last parked thread
    /// clears the park bit
    pub fn timed_out_update(was_last_thread: bool) -> (r: WordUpdate<u8>)
        ensures
            was_last_thread ==> r == WordUpdate::Clear(PARK_BIT),
            !was_last_thread ==> r is Keep,
    {
        if was_last_thread {
            WordUpdate::Clear(PARK_BIT)
        } else {
            WordUpdate::Keep
        }
    }

    /// What the unlocking slow path does once the parking lot has unparked
    /// (or failed to unpark) one thread
    pub fn unlock_slow_decision(result: &UnparkOutcome, force_fair: bool) -> (r: UnparkDecision<u8>)
        ensures
            result.unparked_threads != 0 && force_fair ==> r.token == TOKEN_HANDOFF,
            result.unparked_threads == 0 ==> r.token == TOKEN_NORMAL,
            result.hands_off(force_fair) ==> r.token == TOKEN_HANDOFF,
            result.hands_off(force_fair) && !result.have_more_threads ==> r.update == WordUpdate::Store(LOCK_BIT),
            result.hands_off(force_fair) && result.have_more_threads ==> r.update is Keep,
            !result.hands_off(force_fair) ==> r.token == TOKEN_NORMAL,
            !result.hands_off(force_fair) && result.have_more_threads ==> r.update == WordUpdate::Store(PARK_BIT),
            !result.hands_off(force_fair) && !result.have_more_threads ==> r.update == WordUpdate::Store(0u8),
    {
        if result.unparked_threads != 0 && (force_fair || result.be_fair) {
            if !result.have_more_threads {
                UnparkDecision { update: WordUpdate::Store(LOCK_BIT), token: TOKEN_HANDOFF }
            } else {
                UnparkDecision { update: WordUpdate::Keep, token: TOKEN_HANDOFF }
            }
        } else if result.have_more_threads {
            UnparkDecision { update: WordUpdate::Store(PARK_BIT), token: TOKEN_NORMAL }
        } else {
            UnparkDecision { update: WordUpdate::Store(0), token: TOKEN_NORMAL }
        }
    }

    /// The word after marking a parked thread, if the lock is held
    pub fn mark_parked_if_locked_word(state: u8) -> (r: Option<u8>)
        ensures
            r is Some <==> locked_bit(state),
            r matches Some(n) ==> n == state | PARK_BIT,
    {
        if state & LOCK_BIT == 0 {
            None
        } else {
            Some(state | PARK_BIT)
        }
    }

    /// The unlocking slow path once the parking lot has unparked (or failed
    /// to unpark) one thread as `result` reports: the lock word takes the
    /// decided update and the token for the unparked thread is returned. A
    /// lock handed off stays locked, now for the unparked thread.
    pub fn unlock_slow_with(&mut self, result: &UnparkOutcome, force_fair: bool) -> (r: usize)
        ensures
            result.unparked_threads != 0 && force_fair ==> r == TOKEN_HANDOFF,
            result.hands_off(force_fair) ==> r == TOKEN_HANDOFF
                && final(self).word() == (if result.have_more_threads { old(self).word() } else { LOCK_BIT }),
            !result.hands_off(force_fair) ==> r == TOKEN_NORMAL
                && final(self).word() == (if result.have_more_threads { PARK_BIT } else { 0u8 }),
    {
        let decision = Self::unlock_slow_decision(result, force_fair);
        let state: u8 = self.state;
        self.state = apply_update_u8(&decision.update, state);
        decision.token
    }

    /// The unlocking slow path: no other thread is running, so the parking
    /// lot has nobody to unpark
    fn unlock_slow(&mut self, force_fair: bool)
        ensures
            final(self).word() == 0,
    {
        let nobody = UnparkOutcome::nobody_parked();
        self.unlock_slow_with(&nobody, force_fair);
    }

    /// The failed end of a timed slow path: the thread marked itself parked,
    /// found nobody to release the lock, and, as the last parked thread,
    /// cleared the park bit again
    fn lock_slow_timed_out(&mut self)
        requires
            old(self).locked(),
        ensures
            final(self).word() == old(self).word() & !PARK_BIT,
    {
        let update = Self::timed_out_update(true);
        self.state = apply_update_u8(&update, self.state | PARK_BIT);
        proof {
            lemma_adaptive_bits(old(self).state);
        }
    }
}

impl crate::Init for AdaptiveLock {
    open spec fn is_init(&self) -> bool {
        self.word() == 0
    }

    fn init() -> (r: Self) {
        AdaptiveLock { state: 0 }
    }
}

impl crate::RawLockInfo for AdaptiveLock {
    type ExclusiveGuardTraits = ();
    type ShareGuardTraits = ();
}

impl crate::RawTimedLock for AdaptiveLock {
    type Instant = std::time::Instant;
    type Duration = core::time::Duration;
}

impl crate::mutex::RawMutex for AdaptiveLock {
    proof fn lemma_init_available(&self) {
        lemma_adaptive_bits(0u8);
    }
}

impl RawExclusiveLock for AdaptiveLock {
    open spec fn exc_wf(&self) -> bool {
        true
    }

    open spec fn exc_count(&self) -> nat {
        if self.locked() { 1 } else { 0 }
    }

    open spec fn exc_available(&self) -> bool {
        !self.locked()
    }

    proof fn lemma_available_unheld(&self) {
    }

    /// Bumping a lock with a parked thread releases it to that thread and takes
    /// it back; the park bit is then clear
    closed spec fn exc_bumped(&self) -> Self {
        if self.parked() { AdaptiveLock { state: LOCK_BIT } } else { *self }
    }

    fn exc_lock(&mut self)
        ensures
            final(self).word() == old(self).word() | LOCK_BIT,
    {
        let ok = self.exc_try_lock();
    }

    fn exc_try_lock(&mut self) -> (r: bool)
        ensures
            r ==> final(self).word() == old(self).word() | LOCK_BIT,
    {
        match Self::try_lock_word(self.state) {
            Some(n) => {
                self.state = n;
                proof {
                    lemma_adaptive_bits(old(self).state);
                }
                true
            },
            None => false,
        }
    }

    fn exc_unlock(&mut self)
        ensures
            final(self).word() == 0,
    {
        match Self::unlock_fast_word(self.state) {
            Some(n) => {
                self.state = n;
            },
            None => {
                self.unlock_slow(false);
            },
        }
        proof {
            lemma_adaptive_bits(0u8);
        }
    }

    fn exc_bump(&mut self)
        ensures
            !old(self).parked() ==> final(self).word() == old(self).word(),
            old(self).parked() ==> final(self).word() == LOCK_BIT,
    {
        if self.state & PARK_BIT != 0 {
            self.unlock_slow(false);
            proof {
                lemma_adaptive_bits(0u8);
            }
            self.exc_lock();
        }
        proof {
            lemma_adaptive_bits(0u8);
        }
    }
}

impl RawExclusiveLockFair for AdaptiveLock {
    closed spec fn exc_bumped_fair(&self) -> Self {
        if self.parked() { AdaptiveLock { state: LOCK_BIT } } else { *self }
    }

    fn exc_unlock_fair(&mut self)
        ensures
            final(self).word() == 0,
    {
        match Self::unlock_fast_word(self.state) {
            Some(n) => {
                self.state = n;
            },
            None => {
                self.unlock_slow(true);
            },
        }
        proof {
            lemma_adaptive_bits(0u8);
        }
    }

    fn exc_bump_fair(&mut self)
        ensures
            !old(self).parked() ==> final(self).word() == old(self).word(),
            old(self).parked() ==> final(self).word() == LOCK_BIT,
    {
        if self.state & PARK_BIT != 0 {
            self.unlock_slow(true);
            proof {
                lemma_adaptive_bits(0u8);
            }
            self.exc_lock();
        }
        proof {
            lemma_adaptive_bits(0u8);
        }
    }
}

impl RawExclusiveLockTimed for AdaptiveLock {
    fn exc_try_lock_until(&mut self, instant: std::time::Instant) -> (r: bool)
        ensures
            r ==> final(self).word() == old(self).word() | LOCK_BIT,
            !r ==> final(self).word() == old(self).word() & !PARK_BIT,
    {
        if self.exc_try_lock() {
            true
        } else {
            self.lock_slow_timed_out();
            proof {
                lemma_adaptive_bits(old(self).state);
            }
            false
        }
    }

    fn exc_try_lock_for(&mut self, duration: core::time::Duration) -> (r: bool)
        ensures
            r ==> final(self).word() == old(self).word() | LOCK_BIT,
            !r ==> final(self).word() == old(self).word() & !PARK_BIT,
    {
        if self.exc_try_lock() {
            true
        } else {
            self.lock_slow_timed_out();
            proof {
                lemma_adaptive_bits(old(self).state);
            }
            false
        }
    }
}

impl crate::condvar::Parkable for AdaptiveLock {
    open spec fn has_parked(&self) -> bool {
        parked_bit(self.word())
    }

    /// Marks a parked thread if the lock is held; returns whether it did
    fn mark_parked_if_locked(&mut self) -> (r: bool)
        ensures
            r ==> final(self).word() == old(self).word() | PARK_BIT,
            !r ==> final(self).word() == old(self).word(),
    {
        proof {
            lemma_adaptive_bits(self.state);
        }
        match Self::mark_parked_if_locked_word(self.state) {
            Some(n) => {
                self.state = n;
                true
            },
            None => false,
        }
    }

    /// Marks a parked thread
    fn mark_parked(&mut self)
        ensures
            final(self).word() == old(self).word() | PARK_BIT,
    {
        proof {
            lemma_adaptive_bits(self.state);
        }
        self.state = self.state | PARK_BIT;
    }
}

} // verus!
