//! The decisions that parking locks take around parking and unparking threads
//!
//! The thread parking itself is done by a parking lot outside this library;
//! what it reports back is handed to these functions as plain values, and
//! they say what happens to the lock word next.
use vstd::prelude::*;

verus! {

/// Token handed to an unparked thread: it should try to acquire the lock again
pub const TOKEN_NORMAL: usize = 0;

/// Token handed to an unparked thread: the lock was handed over to it and it
/// now holds it
pub const TOKEN_HANDOFF: usize = 1;

/// What the parking lot reports after unparking one thread
pub struct UnparkOutcome {
    /// The number of threads that were unparked
    pub unparked_threads: usize,
    /// Whether threads are still parked on the same address
    pub have_more_threads: bool,
    /// Whether the parking lot asks for a fair unlock this time
    pub be_fair: bool,
}

impl UnparkOutcome {
    /// The outcome of unparking on an address where no thread is parked
    pub fn nobody_parked() -> (r: Self)
        ensures
            r.unparked_threads == 0,
            !r.have_more_threads,
            !r.be_fair,
    {
        UnparkOutcome { unparked_threads: 0, have_more_threads: false, be_fair: false }
    }

    /// Whether the lock is handed directly to the unparked thread
    pub open spec fn hands_off(self, force_fair: bool) -> bool {
        self.unparked_threads != 0 && (force_fair || self.be_fair)
    }
}

/// When a thread was unparked, a forced fair unlock hands the lock to it, and
/// so does any unlock that the parking lot asks to be fair; an unlock that
/// woke nobody hands nothing off, and neither does an unforced unlock the
/// parking lot does not ask to be fair
pub proof fn fair_unlock_hands_off(result: UnparkOutcome, force_fair: bool)
    ensures
        result.unparked_threads != 0 && force_fair ==> result.hands_off(force_fair),
        result.unparked_threads != 0 && result.be_fair ==> result.hands_off(force_fair),
        result.unparked_threads == 0 ==> !result.hands_off(force_fair),
        !force_fair && !result.be_fair ==> !result.hands_off(force_fair),
{
}

/// What the parking lot reports when a parked thread wakes up
pub enum ParkOutcome {
    /// The thread was unparked with the given token
    Unparked(usize),
    /// The validation step failed and the thread was not parked
    Invalid,
    /// The timeout expired
    TimedOut,
}

/// How the locking slow path goes on after a park
pub enum AfterPark {
    /// The lock was handed over: the thread holds it
    Acquired,
    /// Loop back and try locking again
    Retry,
    /// The timeout expired without the lock
    TimedOut,
}

/// How a parking lock goes on after one of its threads was parked
pub fn after_park(outcome: ParkOutcome) -> (r: AfterPark)
    ensures
        r is Acquired <==> outcome == ParkOutcome::Unparked(TOKEN_HANDOFF),
        r is TimedOut <==> outcome is TimedOut,
        r is Retry <==> (outcome is Invalid || (outcome is Unparked && outcome->0 != TOKEN_HANDOFF)),
{
    match outcome {
        ParkOutcome::Unparked(token) => {
            if token == TOKEN_HANDOFF {
                AfterPark::Acquired
            } else {
                AfterPark::Retry
            }
        },
        ParkOutcome::Invalid => AfterPark::Retry,
        ParkOutcome::TimedOut => AfterPark::TimedOut,
    }
}

/// One step of the locking slow path, decided from the observed lock word
pub enum LockSlowAction<W> {
    /// The lock is free: compare-and-swap the observed word for this one
    Acquire(W),
    /// Nobody is parked yet: spin once more if the spin budget allows it
    Spin,
    /// Spinning is over: compare-and-swap the observed word for this one,
    /// which has the park bit set
    MarkParked(W),
    /// The park bit is set: park the thread
    Park,
}

/// An update of a lock word made in one atomic step
pub enum WordUpdate<W> {
    /// The word is left alone
    Keep,
    /// The word is overwritten with this value
    Store(W),
    /// These bits of the word are cleared
    Clear(W),
}

/// `state` after the given update
pub open spec fn apply_u8(update: WordUpdate<u8>, state: u8) -> u8 {
    match update {
        WordUpdate::Keep => state,
        WordUpdate::Store(v) => v,
        WordUpdate::Clear(bits) => state & !bits,
    }
}

/// `state` after the given update
pub open spec fn apply_usize(update: WordUpdate<usize>, state: usize) -> usize {
    match update {
        WordUpdate::Keep => state,
        WordUpdate::Store(v) => v,
        WordUpdate::Clear(bits) => state & !bits,
    }
}

/// Carry out an update on a byte-sized lock word
pub fn apply_update_u8(update: &WordUpdate<u8>, state: u8) -> (r: u8)
    ensures
        r == apply_u8(*update, state),
{
    match update {
        WordUpdate::Keep => state,
        WordUpdate::Store(v) => *v,
        WordUpdate::Clear(bits) => state & !*bits,
    }
}

/// Carry out an update on a word-sized lock word
pub fn apply_update_usize(update: &WordUpdate<usize>, state: usize) -> (r: usize)
    ensures
        r == apply_usize(*update, state),
{
    match update {
        WordUpdate::Keep => state,
        WordUpdate::Store(v) => *v,
        WordUpdate::Clear(bits) => state & !*bits,
    }
}

/// What the unpark callback of a parking lock does: the update of the lock
/// word, and the token handed to the unparked thread
pub struct UnparkDecision<W> {
    /// The update of the lock word
    pub update: WordUpdate<W>,
    /// The token for the unparked thread
    pub token: usize,
}

} // verus!
