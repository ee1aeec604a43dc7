//! a splittable lock that parks waiting threads
use vstd::prelude::*;
use crate::exclusive_lock::{
    RawExclusiveLock, RawExclusiveLockFair, RawExclusiveLockTimed, SplittableExclusiveLock,
};
use crate::park::{
    apply_update_usize, LockSlowAction, UnparkDecision, UnparkOutcome, WordUpdate, TOKEN_HANDOFF,
    TOKEN_NORMAL,
};

verus! {

/// The park bit of a [`SplitLock`] word: the lowest bit
pub const PARK_BIT: usize = 0b1;

/// One *exc lock* in a [`SplitLock`] word: the count stands above the park bit
pub const INC: usize = 0b10;

/// a splittable raw mutex
///
/// This lock can hold several exclusive locks at the same time, one for each
/// disjoint part of the protected data.
pub type RawMutex = crate::mutex::raw::Mutex<SplitLock>;

/// a splittable mutex
pub type Mutex<T> = crate::mutex::Mutex<SplitLock, T>;

/// The number of *exc locks* counted in `state`
pub open spec fn count_of(state: usize) -> nat {
    (state / 2) as nat
}

/// Whether the park bit is set in `state`
pub open spec fn parked_of(state: usize) -> bool {
    state % 2 == 1
}

/// The park bit of a word is its parity
pub proof fn lemma_park_bit(state: usize)
    by (bit_vector)
    ensures
        (state & PARK_BIT != 0) == parked_of(state),
        state & PARK_BIT == state % 2,
        state < 2 ==> state | INC == state + 2,
        state % 2 == 1 ==> state | PARK_BIT == state,
        state % 2 == 0 ==> state | PARK_BIT == state + 1,
        state & !PARK_BIT == state - state % 2,
        (state | 1usize) & !1usize == state & !1usize,
        2usize | 1usize == 3usize,
{
}

/// a splittable lock: its word counts the *exc locks* held, above a park bit
pub struct SplitLock {
    state: usize,
}

impl SplitLock {
    /// The lock word
    pub closed spec fn word(&self) -> usize {
        self.state
    }

    /// The number of *exc locks* held
    pub open spec fn count(&self) -> nat {
        count_of(self.word())
    }

    /// Whether a thread is marked as parked on the lock
    pub open spec fn parked(&self) -> bool {
        parked_of(self.word())
    }

    /// create a new splittable lock
    pub fn new() -> (r: Self)
        ensures
            r.word() == 0,
    {
        SplitLock { state: 0 }
    }

    /// create a new splittable raw mutex
    pub fn raw_mutex() -> (r: RawMutex)
        ensures
            r.lock_view().word() == 0,
    {
        crate::mutex::raw::Mutex::from_raw(Self::new())
    }

    /// create a new splittable mutex
    pub fn mutex<T>(value: T) -> (r: Mutex<T>)
        ensures
            r.lock_view().word() == 0,
            r.value_view() == value,
    {
        crate::mutex::Mutex::from_raw_parts(Self::raw_mutex(), value)
    }

    /// The word a successful acquisition swaps in for `state`: the lock can
    /// only be taken when no *exc lock* is counted
    pub fn try_lock_word(state: usize) -> (r: Option<usize>)
        ensures
            r is Some <==> count_of(state) == 0,
            r matches Some(n) ==> n == state + INC,
    {
        let parked: usize = state & PARK_BIT;
        proof {
            lemma_park_bit(state);
            lemma_park_bit(parked);
        }
        if state == parked {
            Some(parked | INC)
        } else {
            None
        }
    }

    /// The word the fast unlock path swaps in for `state`: only a holder that
    /// is not the last one takes it; the last holder takes the slow path, which
    /// unparks a waiting thread if there is one
    pub fn unlock_fast_word(state: usize) -> (r: Option<usize>)
        requires
            count_of(state) > 0,
        ensures
            r is Some <==> count_of(state) >= 2,
            r matches Some(n) ==> n == state - INC,
    {
        proof {
            lemma_park_bit(state);
        }
        if state >= INC + INC {
            Some(state - INC)
        } else {
            None
        }
    }

    /// One step of the locking slow path for the observed word `state`
    ///
    /// `spin_exhausted` tells whether the spin budget has run out.
    pub fn lock_slow_step(state: usize, spin_exhausted: bool) -> (r: LockSlowAction<usize>)
        ensures
            count_of(state) == 0 ==> r == LockSlowAction::Acquire((state + INC) as usize),
            count_of(state) > 0 && !parked_of(state) && !spin_exhausted ==> r is Spin,
            count_of(state) > 0 && !parked_of(state) && spin_exhausted
                ==> r == LockSlowAction::MarkParked((state + PARK_BIT) as usize),
            count_of(state) > 0 && parked_of(state) ==> r is Park,
    {
        proof {
            lemma_park_bit(state);
        }
        if state < INC {
            LockSlowAction::Acquire(state | INC)
        } else if state & PARK_BIT == 0 {
            if spin_exhausted {
                LockSlowAction::MarkParked(state | PARK_BIT)
            } else {
                LockSlowAction::Spin
            }
        } else {
            LockSlowAction::Park
        }
    }

    /// The check the parking lot runs before parking a thread: something must
    /// still be set in the word
    pub fn park_validate(state: usize) -> (r: bool)
        ensures
            r == (state != 0),
    {
        state != 0
    }

    /// The update made when a parked thread times out: the last parked thread
    /// clears the park bit
    pub fn timed_out_update(was_last_thread: bool) -> (r: WordUpdate<usize>)
        ensures
            was_last_thread ==> r == WordUpdate::Clear(PARK_BIT),
            !was_last_thread ==> r is Keep,
    {
        if was_last_thread {
            WordUpdate::Clear(PARK_BIT)
        } else {
            WordUpdate::Keep
        }
    }

    /// What the unlocking slow path does once the parking lot has unparked
    /// (or failed to unpark) one thread
    pub fn unlock_slow_decision(result: &UnparkOutcome, force_fair: bool) -> (r: UnparkDecision<usize>)
        ensures
            result.unparked_threads != 0 && force_fair ==> r.token == TOKEN_HANDOFF,
            result.unparked_threads == 0 ==> r.token == TOKEN_NORMAL,
            result.hands_off(force_fair) ==> r.token == TOKEN_HANDOFF,
            result.hands_off(force_fair) && !result.have_more_threads ==> r.update == WordUpdate::Store(INC),
            result.hands_off(force_fair) && result.have_more_threads ==> r.update is Keep,
            !result.hands_off(force_fair) ==> r.token == TOKEN_NORMAL,
            !result.hands_off(force_fair) && result.have_more_threads ==> r.update == WordUpdate::Store(PARK_BIT),
            !result.hands_off(force_fair) && !result.have_more_threads ==> r.update == WordUpdate::Store(0usize),
    {
        if result.unparked_threads != 0 && (force_fair || result.be_fair) {
            if !result.have_more_threads {
                UnparkDecision { update: WordUpdate::Store(INC), token: TOKEN_HANDOFF }
            } else {
                UnparkDecision { update: WordUpdate::Keep, token: TOKEN_HANDOFF }
            }
        } else if result.have_more_threads {
            UnparkDecision { update: WordUpdate::Store(PARK_BIT), token: TOKEN_NORMAL }
        } else {
            UnparkDecision { update: WordUpdate::Store(0), token: TOKEN_NORMAL }
        }
    }

    /// The unlocking slow path once the parking lot has unparked (or failed
    /// to unpark) one thread as `result` reports: the lock word takes the
    /// decided update and the token for the unparked thread is returned. A
    /// lock handed off stays locked, now for the unparked thread.
    pub fn unlock_slow_with(&mut self, result: &UnparkOutcome, force_fair: bool) -> (r: usize)
        ensures
            result.unparked_threads != 0 && force_fair ==> r == TOKEN_HANDOFF,
            result.hands_off(force_fair) ==> r == TOKEN_HANDOFF
                && final(self).word() == (if result.have_more_threads { old(self).word() } else { INC }),
            !result.hands_off(force_fair) ==> r == TOKEN_NORMAL
                && final(self).word() == (if result.have_more_threads { PARK_BIT } else { 0usize }),
    {
        let decision = Self::unlock_slow_decision(result, force_fair);
        let state: usize = self.state;
        self.state = apply_update_usize(&decision.update, state);
        decision.token
    }

    /// The unlocking slow path: no other thread is running, so the parking
    /// lot has nobody to unpark
    fn unlock_slow(&mut self, force_fair: bool)
        ensures
            final(self).word() == 0,
    {
        let nobody = UnparkOutcome::nobody_parked();
        self.unlock_slow_with(&nobody, force_fair);
    }

    /// Releases one *exc lock*, through the fast path when possible
    fn unlock_with(&mut self, force_fair: bool)
        requires
            old(self).count() > 0,
        ensures
            old(self).count() >= 2 ==> final(self).word() == old(self).word() - INC,
            old(self).count() == 1 ==> final(self).word() == 0,
    {
        match Self::unlock_fast_word(self.state) {
            Some(n) => {
                self.state = n;
            },
            None => {
                self.unlock_slow(force_fair);
            },
        }
    }

    /// The failed end of a timed slow path: the thread marked itself parked,
    /// found nobody to release the lock, and, as the last parked thread,
    /// cleared the park bit again
    fn lock_slow_timed_out(&mut self)
        ensures
            final(self).word() == old(self).word() & !PARK_BIT,
    {
        let update = Self::timed_out_update(true);
        let state: usize = self.state;
        self.state = apply_update_usize(&update, state | PARK_BIT);
        proof {
            lemma_park_bit(state);
        }
    }
}

impl crate::Init for SplitLock {
    open spec fn is_init(&self) -> bool {
        self.word() == 0
    }

    fn init() -> (r: Self) {
        SplitLock { state: 0 }
    }
}

impl crate::RawLockInfo for SplitLock {
    type ExclusiveGuardTraits = ();
    type ShareGuardTraits = ();
}

impl crate::RawTimedLock for SplitLock {
    type Instant = std::time::Instant;
    type Duration = core::time::Duration;
}

impl crate::mutex::RawMutex for SplitLock {
    proof fn lemma_init_available(&self) {
    }
}

impl RawExclusiveLock for SplitLock {
    open spec fn exc_wf(&self) -> bool {
        true
    }

    open spec fn exc_count(&self) -> nat {
        self.count()
    }

    open spec fn exc_available(&self) -> bool {
        self.count() == 0
    }

    proof fn lemma_available_unheld(&self) {
    }

    /// Bumping a lock held once with a parked thread releases it to that
    /// thread and takes it back; the park bit is then clear
    closed spec fn exc_bumped(&self) -> Self {
        if self.word() == INC + PARK_BIT { SplitLock { state: INC } } else { *self }
    }

    fn exc_lock(&mut self)
        ensures
            final(self).word() == old(self).word() + INC,
    {
        let ok = self.exc_try_lock();
    }

    fn exc_try_lock(&mut self) -> (r: bool)
        ensures
            r ==> final(self).word() == old(self).word() + INC,
    {
        match Self::try_lock_word(self.state) {
            Some(n) => {
                self.state = n;
                true
            },
            None => false,
        }
    }

    fn exc_unlock(&mut self)
        ensures
            old(self).count() >= 2 ==> final(self).word() == old(self).word() - INC,
            old(self).count() == 1 ==> final(self).word() == 0,
    {
        self.unlock_with(false);
    }

    fn exc_bump(&mut self)
        ensures
            old(self).word() != INC + PARK_BIT ==> final(self).word() == old(self).word(),
            old(self).word() == INC + PARK_BIT ==> final(self).word() == INC,
    {
        proof {
            lemma_park_bit(0usize);
        }
        if self.state == INC | PARK_BIT {
            self.unlock_slow(false);
            self.exc_lock();
        }
    }
}

impl RawExclusiveLockFair for SplitLock {
    closed spec fn exc_bumped_fair(&self) -> Self {
        if self.word() == INC + PARK_BIT { SplitLock { state: INC } } else { *self }
    }

    fn exc_unlock_fair(&mut self)
        ensures
            old(self).count() >= 2 ==> final(self).word() == old(self).word() - INC,
            old(self).count() == 1 ==> final(self).word() == 0,
    {
        self.unlock_with(true);
    }

    fn exc_bump_fair(&mut self)
        ensures
            old(self).word() != INC + PARK_BIT ==> final(self).word() == old(self).word(),
            old(self).word() == INC + PARK_BIT ==> final(self).word() == INC,
    {
        proof {
            lemma_park_bit(0usize);
        }
        if self.state == INC | PARK_BIT {
            self.unlock_slow(true);
            self.exc_lock();
        }
    }
}

impl RawExclusiveLockTimed for SplitLock {
    fn exc_try_lock_until(&mut self, instant: std::time::Instant) -> (r: bool)
        ensures
            r ==> final(self).word() == old(self).word() + INC,
            !r ==> final(self).word() == old(self).word() & !PARK_BIT,
    {
        if self.exc_try_lock() {
            true
        } else {
            self.lock_slow_timed_out();
            proof {
                lemma_park_bit(old(self).state);
            }
            false
        }
    }

    fn exc_try_lock_for(&mut self, duration: core::time::Duration) -> (r: bool)
        ensures
            r ==> final(self).word() == old(self).word() + INC,
            !r ==> final(self).word() == old(self).word() & !PARK_BIT,
    {
        if self.exc_try_lock() {
            true
        } else {
            self.lock_slow_timed_out();
            proof {
                lemma_park_bit(old(self).state);
            }
            false
        }
    }
}

impl SplittableExclusiveLock for SplitLock {
    open spec fn exc_split_room(&self) -> bool {
        self.word() + INC <= usize::MAX
    }

    fn exc_split(&mut self)
        ensures
            final(self).word() == old(self).word() + INC,
    {
        self.state = self.state + INC;
    }
}

} // verus!
