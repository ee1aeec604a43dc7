//! A raw condition variable: a flag that tells whether threads may be parked
//! on it
use vstd::prelude::*;
use crate::condvar::{Parkable, WaitTimeoutResult, Wake};
use crate::exclusive_lock::{RawExclusiveGuard, RawExclusiveLock};
use crate::park::UnparkOutcome;
use crate::share_lock::{RawShareGuard, RawShareLock};

verus! {

/// What a notification does next
pub enum Notify {
    /// No thread is parked on the condvar: there is nobody to wake
    Done,
    /// Threads may be parked: unpark through the parking lot, then report the
    /// outcome to the slow path of the notification
    Unpark,
}

/// A condition variable that parks its waiting threads in a parking lot
pub struct RawCondvar {
    is_parked: bool,
}

impl RawCondvar {
    /// Whether threads may be parked on the condvar
    pub closed spec fn parked(&self) -> bool {
        self.is_parked
    }

    /// A condvar with no thread parked on it
    pub fn new() -> (r: Self)
        ensures
            !r.parked(),
    {
        RawCondvar { is_parked: false }
    }

    /// Wakes up one thread parked on the condvar, if any: the fast path
    pub fn notify_one(&self) -> (r: Notify)
        ensures
            r is Unpark <==> self.parked(),
    {
        if !self.is_parked {
            Notify::Done
        } else {
            Notify::Unpark
        }
    }

    /// The end of a notification of one thread, given what the parking lot
    /// reported: the flag is cleared when no thread is left parked, and the
    /// result tells whether a thread was woken
    pub fn notify_one_slow(&mut self, result: UnparkOutcome) -> (r: bool)
        ensures
            r == (result.unparked_threads != 0),
            final(self).parked() == (old(self).parked() && result.have_more_threads),
    {
        if !result.have_more_threads {
            self.is_parked = false;
        }
        result.unparked_threads != 0
    }

    /// Wakes up all threads parked on the condvar: the fast path
    pub fn notify_all(&self) -> (r: Notify)
        ensures
            r is Unpark <==> self.parked(),
    {
        if !self.is_parked {
            Notify::Done
        } else {
            Notify::Unpark
        }
    }

    /// The end of a notification of all threads, given how many threads the
    /// parking lot unparked: none is left parked
    pub fn notify_all_slow(&mut self, unparked: usize) -> (r: usize)
        ensures
            r == unparked,
            !final(self).parked(),
    {
        self.is_parked = false;
        unparked
    }

    /// The flag after a wait that woke up as `wake` says: set while the
    /// thread was parked, cleared by the last thread to time out, and found
    /// cleared by a wait that never slept
    pub open spec fn parked_after(wake: Wake) -> bool {
        match wake {
            Wake::Notified => true,
            Wake::TimedOut { was_last } => !was_last,
            Wake::Invalid => false,
        }
    }

    /// A waiter that timed out while others are still parked leaves the flag
    /// set for them, so a later notification still wakes one; the last one to
    /// time out clears it, a notified waiter leaves it for the notifier, and a
    /// wait that never slept found it already cleared by a notification
    pub proof fn timed_out_waiter_keeps_others_parked(was_last: bool)
        ensures
            !was_last ==> Self::parked_after(Wake::TimedOut { was_last }),
            was_last ==> !Self::parked_after(Wake::TimedOut { was_last }),
            Self::parked_after(Wake::Notified),
            !Self::parked_after(Wake::Invalid),
    {
    }

    /// Parks the thread on the condvar: sets the flag, and clears it again if
    /// the thread timed out as the last one parked
    fn park(&mut self, wake: Wake) -> (r: WaitTimeoutResult)
        ensures
            final(self).parked() == Self::parked_after(wake),
            r.timed_out_view() == !(wake is Notified),
    {
        self.is_parked = true;
        match wake {
            Wake::Notified => WaitTimeoutResult::from_timed_out(false),
            Wake::Invalid => {
                self.is_parked = false;
                WaitTimeoutResult::from_timed_out(true)
            },
            Wake::TimedOut { was_last } => {
                if was_last {
                    self.is_parked = false;
                }
                WaitTimeoutResult::from_timed_out(true)
            },
        }
    }

    /// Waits on the condvar with the *exc lock* of `guard`: the lock is
    /// released while the thread is parked and taken again when it wakes.
    /// Without a timeout the thread cannot time out; a wait that never slept
    /// keeps the lock throughout.
    pub fn exc_wait<L: RawExclusiveLock + Parkable>(&mut self, guard: &mut RawExclusiveGuard<'_, L>, wake: Wake)
        requires
            old(guard).lock_view().exc_wf(),
            old(guard).lock_view().exc_count() == 1,
            !(wake is TimedOut),
        ensures
            final(guard).lock_view().exc_wf(),
            final(guard).lock_view().exc_count() == 1,
            *final(final(guard).lock) == *final(old(guard).lock),
            wake is Invalid ==> final(guard).lock_view() == old(guard).lock_view(),
            !(wake is Invalid) ==> final(guard).lock_view() == old(guard).lock_view().exc_bumped(),
            final(self).parked() == Self::parked_after(wake),
    {
        self.exc_wait_until(guard, wake);
    }

    /// Waits on the condvar with the *exc lock* of `guard` until a timeout
    ///
    /// Unless the wait never slept, the lock is released around the park and
    /// taken again: nothing but this thread touches the lock word in between,
    /// so its word ends as one bump leaves it, a bump being an unlock followed
    /// by a lock.
    pub fn exc_wait_until<L: RawExclusiveLock + Parkable>(&mut self, guard: &mut RawExclusiveGuard<'_, L>, wake: Wake) -> (r: WaitTimeoutResult)
        requires
            old(guard).lock_view().exc_wf(),
            old(guard).lock_view().exc_count() == 1,
        ensures
            final(guard).lock_view().exc_wf(),
            final(guard).lock_view().exc_count() == 1,
            *final(final(guard).lock) == *final(old(guard).lock),
            wake is Invalid ==> final(guard).lock_view() == old(guard).lock_view(),
            !(wake is Invalid) ==> final(guard).lock_view() == old(guard).lock_view().exc_bumped(),
            final(self).parked() == Self::parked_after(wake),
            r.timed_out_view() == !(wake is Notified),
    {
        let r = self.park(wake);
        if let Wake::Invalid = wake {
            return r;
        }
        guard.lock.exc_bump();
        r
    }

    /// Waits on the condvar with the *exc lock* of `guard` for a duration
    pub fn exc_wait_for<L: RawExclusiveLock + Parkable>(&mut self, guard: &mut RawExclusiveGuard<'_, L>, wake: Wake) -> (r: WaitTimeoutResult)
        requires
            old(guard).lock_view().exc_wf(),
            old(guard).lock_view().exc_count() == 1,
        ensures
            final(guard).lock_view().exc_wf(),
            final(guard).lock_view().exc_count() == 1,
            *final(final(guard).lock) == *final(old(guard).lock),
            wake is Invalid ==> final(guard).lock_view() == old(guard).lock_view(),
            !(wake is Invalid) ==> final(guard).lock_view() == old(guard).lock_view().exc_bumped(),
            final(self).parked() == Self::parked_after(wake),
            r.timed_out_view() == !(wake is Notified),
    {
        self.exc_wait_until(guard, wake)
    }

    /// Waits on the condvar with the *shr lock* that `guard` stands for on
    /// `lock`: the lock is released while the thread is parked and taken again
    /// when it wakes. Without a timeout the thread cannot time out; a wait
    /// that never slept keeps the lock throughout.
    pub fn shr_wait<L: RawShareLock>(&mut self, lock: &mut L, guard: &RawShareGuard<L>, wake: Wake)
        requires
            old(lock).shr_wf(),
            old(lock).shr_count() == 1,
            !(wake is TimedOut),
        ensures
            final(lock).shr_wf(),
            final(lock).shr_count() == 1,
            wake is Invalid ==> *final(lock) == *old(lock),
            !(wake is Invalid) ==> *final(lock) == old(lock).shr_bumped(),
            final(self).parked() == Self::parked_after(wake),
    {
        self.shr_wait_until(lock, guard, wake);
    }

    /// Waits on the condvar with a *shr lock* on `lock` until a timeout
    ///
    /// Unless the wait never slept, the lock is released around the park and
    /// taken again, which leaves its word as one bump does.
    pub fn shr_wait_until<L: RawShareLock>(&mut self, lock: &mut L, guard: &RawShareGuard<L>, wake: Wake) -> (r: WaitTimeoutResult)
        requires
            old(lock).shr_wf(),
            old(lock).shr_count() == 1,
        ensures
            final(lock).shr_wf(),
            final(lock).shr_count() == 1,
            wake is Invalid ==> *final(lock) == *old(lock),
            !(wake is Invalid) ==> *final(lock) == old(lock).shr_bumped(),
            final(self).parked() == Self::parked_after(wake),
            r.timed_out_view() == !(wake is Notified),
    {
        let r = self.park(wake);
        if let Wake::Invalid = wake {
            return r;
        }
        lock.shr_bump();
        r
    }

    /// Waits on the condvar with a *shr lock* on `lock` for a duration
    pub fn shr_wait_for<L: RawShareLock>(&mut self, lock: &mut L, guard: &RawShareGuard<L>, wake: Wake) -> (r: WaitTimeoutResult)
        requires
            old(lock).shr_wf(),
            old(lock).shr_count() == 1,
        ensures
            final(lock).shr_wf(),
            final(lock).shr_count() == 1,
            wake is Invalid ==> *final(lock) == *old(lock),
            !(wake is Invalid) ==> *final(lock) == old(lock).shr_bumped(),
            final(self).parked() == Self::parked_after(wake),
            r.timed_out_view() == !(wake is Notified),
    {
        self.shr_wait_until(lock, guard, wake)
    }
}

impl crate::Init for RawCondvar {
    open spec fn is_init(&self) -> bool {
        !self.parked()
    }

    fn init() -> (r: Self) {
        RawCondvar { is_parked: false }
    }
}

} // verus!
