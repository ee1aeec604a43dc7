//! Condition variables whose waiting threads are parked in a parking lot
//!
//! The parking lot itself runs outside this library: a notification first
//! asks [`Condvar::notify_one`] or [`Condvar::notify_all`] whether anybody may
//! be parked, and hands what the parking lot reports to the slow path; a wait
//! is told how the parked thread woke up.
use vstd::prelude::*;
use crate::exclusive_lock::{ExclusiveGuard, RawExclusiveLock};
use crate::park::UnparkOutcome;
use crate::share_lock::{RawShareLock, ShareGuard};

pub mod raw;

pub use raw::{Notify, RawCondvar};

verus! {

/// Locks whose threads can be parked on a condition variable
pub trait Parkable: RawExclusiveLock {
    /// Whether the lock word records a parked thread
    spec fn has_parked(&self) -> bool;

    /// Marks a parked thread if the lock is held; returns whether it did
    fn mark_parked_if_locked(&mut self) -> (r: bool)
        requires
            old(self).exc_wf(),
        ensures
            final(self).exc_wf(),
            r == (old(self).exc_count() > 0),
            final(self).exc_count() == old(self).exc_count(),
            r ==> final(self).has_parked(),
            !r ==> *final(self) == *old(self),
    ;

    /// Marks a parked thread
    fn mark_parked(&mut self)
        requires
            old(self).exc_wf(),
        ensures
            final(self).exc_wf(),
            final(self).exc_count() == old(self).exc_count(),
            final(self).has_parked(),
    ;
}

/// How a thread parked on a condition variable woke up, as the parking lot
/// reports it
#[derive(Clone, Copy)]
pub enum Wake {
    /// A notification unparked it
    Notified,
    /// Its timeout expired; `was_last` tells whether it was the last thread
    /// parked on the condvar
    TimedOut { was_last: bool },
    /// It never slept: a notification cleared the flag of the condvar before
    /// the parking lot could check it, so the lock was never released
    Invalid,
}

/// A type indicating whether a timed wait on a condition variable returned
/// due to a time out or not.
pub struct WaitTimeoutResult(bool);

impl WaitTimeoutResult {
    /// Whether the wait timed out
    pub closed spec fn timed_out_view(&self) -> bool {
        self.0
    }

    /// The result of a wait that timed out, or not
    pub fn from_timed_out(timed_out: bool) -> (r: Self)
        ensures
            r.timed_out_view() == timed_out,
    {
        WaitTimeoutResult(timed_out)
    }

    /// Returns whether the wait was known to have timed out.
    pub fn timed_out(self) -> (r: bool)
        ensures
            r == self.timed_out_view(),
    {
        self.0
    }
}

/// A condition variable
pub struct Condvar {
    raw: RawCondvar,
}

impl Condvar {
    /// Whether threads may be parked on the condvar
    pub closed spec fn parked(&self) -> bool {
        self.raw.parked()
    }

    /// A condvar with no thread parked on it
    pub fn new() -> (r: Self)
        ensures
            !r.parked(),
    {
        Condvar { raw: RawCondvar::new() }
    }

    /// Wakes up one thread parked on the condvar, if any: the fast path
    pub fn notify_one(&self) -> (r: Notify)
        ensures
            r is Unpark <==> self.parked(),
    {
        self.raw.notify_one()
    }

    /// The end of a notification of one thread, given what the parking lot
    /// reported; returns whether a thread was woken
    pub fn notify_one_slow(&mut self, result: UnparkOutcome) -> (r: bool)
        ensures
            r == (result.unparked_threads != 0),
            final(self).parked() == (old(self).parked() && result.have_more_threads),
    {
        self.raw.notify_one_slow(result)
    }

    /// Wakes up all threads parked on the condvar: the fast path
    pub fn notify_all(&self) -> (r: Notify)
        ensures
            r is Unpark <==> self.parked(),
    {
        self.raw.notify_all()
    }

    /// The end of a notification of all threads, given how many the parking
    /// lot unparked
    pub fn notify_all_slow(&mut self, unparked: usize) -> (r: usize)
        ensures
            r == unparked,
            !final(self).parked(),
    {
        self.raw.notify_all_slow(unparked)
    }

    /// Waits on the condvar with the lock that `guard` holds
    pub fn wait<W: Wait>(&mut self, guard: &mut W, wake: Wake)
        requires
            old(guard).can_wait(),
            !(wake is TimedOut),
        ensures
            final(guard).can_wait(),
            final(guard).same_data(*old(guard)),
            final(guard).relocked_from(*old(guard), !(wake is Invalid)),
            final(self).parked() == RawCondvar::parked_after(wake),
    {
        guard.wait(self, wake)
    }

    /// Waits on the condvar with the lock that `guard` holds, until a timeout
    pub fn wait_until<W: Wait>(&mut self, guard: &mut W, wake: Wake) -> (r: WaitTimeoutResult)
        requires
            old(guard).can_wait(),
        ensures
            final(guard).can_wait(),
            final(guard).same_data(*old(guard)),
            final(guard).relocked_from(*old(guard), !(wake is Invalid)),
            final(self).parked() == RawCondvar::parked_after(wake),
            r.timed_out_view() == !(wake is Notified),
    {
        guard.wait_until(self, wake)
    }

    /// Waits on the condvar with the lock that `guard` holds, for a duration
    pub fn wait_for<W: Wait>(&mut self, guard: &mut W, wake: Wake) -> (r: WaitTimeoutResult)
        requires
            old(guard).can_wait(),
        ensures
            final(guard).can_wait(),
            final(guard).same_data(*old(guard)),
            final(guard).relocked_from(*old(guard), !(wake is Invalid)),
            final(self).parked() == RawCondvar::parked_after(wake),
            r.timed_out_view() == !(wake is Notified),
    {
        guard.wait_for(self, wake)
    }
}

impl Condvar {
    /// Waits on the condvar with the *shr lock* that `guard` stands for on
    /// `lock`; without a timeout the thread cannot time out
    pub fn shr_wait<L: RawShareLock, T>(&mut self, lock: &mut L, guard: &ShareGuard<L, T>, wake: Wake)
        requires
            old(lock).shr_wf(),
            old(lock).shr_count() == 1,
            !(wake is TimedOut),
        ensures
            final(lock).shr_wf(),
            final(lock).shr_count() == 1,
            wake is Invalid ==> *final(lock) == *old(lock),
            !(wake is Invalid) ==> *final(lock) == old(lock).shr_bumped(),
            final(self).parked() == RawCondvar::parked_after(wake),
    {
        self.raw.shr_wait(lock, ShareGuard::raw(guard), wake)
    }

    /// Waits on the condvar with a *shr lock* on `lock` until a timeout
    pub fn shr_wait_until<L: RawShareLock, T>(&mut self, lock: &mut L, guard: &ShareGuard<L, T>, wake: Wake) -> (r: WaitTimeoutResult)
        requires
            old(lock).shr_wf(),
            old(lock).shr_count() == 1,
        ensures
            final(lock).shr_wf(),
            final(lock).shr_count() == 1,
            wake is Invalid ==> *final(lock) == *old(lock),
            !(wake is Invalid) ==> *final(lock) == old(lock).shr_bumped(),
            final(self).parked() == RawCondvar::parked_after(wake),
            r.timed_out_view() == !(wake is Notified),
    {
        self.raw.shr_wait_until(lock, ShareGuard::raw(guard), wake)
    }

    /// Waits on the condvar with a *shr lock* on `lock` for a duration
    pub fn shr_wait_for<L: RawShareLock, T>(&mut self, lock: &mut L, guard: &ShareGuard<L, T>, wake: Wake) -> (r: WaitTimeoutResult)
        requires
            old(lock).shr_wf(),
            old(lock).shr_count() == 1,
        ensures
            final(lock).shr_wf(),
            final(lock).shr_count() == 1,
            wake is Invalid ==> *final(lock) == *old(lock),
            !(wake is Invalid) ==> *final(lock) == old(lock).shr_bumped(),
            final(self).parked() == RawCondvar::parked_after(wake),
            r.timed_out_view() == !(wake is Notified),
    {
        self.raw.shr_wait_for(lock, ShareGuard::raw(guard), wake)
    }
}

impl crate::Init for Condvar {
    open spec fn is_init(&self) -> bool {
        !self.parked()
    }

    fn init() -> (r: Self) {
        Condvar { raw: RawCondvar::new() }
    }
}

/// Guards that can wait on a condition variable
pub trait Wait: Sized {
    /// The guard holds exactly one lock, on a usable lock word
    spec fn can_wait(&self) -> bool;

    /// The guard protects the same data as `other`
    spec fn same_data(&self, other: Self) -> bool;

    /// The guard holds its lock as `before` did, the lock having been
    /// released and taken again if `released` (its word as one bump leaves it)
    spec fn relocked_from(&self, before: Self, released: bool) -> bool;

    /// Waits on `cv`; without a timeout the thread cannot time out
    fn wait(&mut self, cv: &mut Condvar, wake: Wake)
        requires
            old(self).can_wait(),
            !(wake is TimedOut),
        ensures
            final(self).can_wait(),
            final(self).same_data(*old(self)),
            final(self).relocked_from(*old(self), !(wake is Invalid)),
            final(cv).parked() == RawCondvar::parked_after(wake),
    ;

    /// Waits on `cv` until a timeout
    fn wait_until(&mut self, cv: &mut Condvar, wake: Wake) -> (r: WaitTimeoutResult)
        requires
            old(self).can_wait(),
        ensures
            final(self).can_wait(),
            final(self).same_data(*old(self)),
            final(self).relocked_from(*old(self), !(wake is Invalid)),
            final(cv).parked() == RawCondvar::parked_after(wake),
            r.timed_out_view() == !(wake is Notified),
    ;

    /// Waits on `cv` for a duration
    fn wait_for(&mut self, cv: &mut Condvar, wake: Wake) -> (r: WaitTimeoutResult)
        requires
            old(self).can_wait(),
        ensures
            final(self).can_wait(),
            final(self).same_data(*old(self)),
            final(self).relocked_from(*old(self), !(wake is Invalid)),
            final(cv).parked() == RawCondvar::parked_after(wake),
            r.timed_out_view() == !(wake is Notified),
    ;
}

impl<'a, L: RawExclusiveLock + Parkable, T> Wait for ExclusiveGuard<'a, L, T> {
    open spec fn can_wait(&self) -> bool {
        &&& self.raw.lock_view().exc_wf()
        &&& self.raw.lock_view().exc_count() == 1
    }

    open spec fn same_data(&self, other: Self) -> bool {
        self.value == other.value
    }

    open spec fn relocked_from(&self, before: Self, released: bool) -> bool {
        if released {
            self.raw.lock_view() == before.raw.lock_view().exc_bumped()
        } else {
            self.raw.lock_view() == before.raw.lock_view()
        }
    }

    fn wait(&mut self, cv: &mut Condvar, wake: Wake) {
        cv.raw.exc_wait(&mut self.raw, wake);
    }

    fn wait_until(&mut self, cv: &mut Condvar, wake: Wake) -> (r: WaitTimeoutResult) {
        cv.raw.exc_wait_until(&mut self.raw, wake)
    }

    fn wait_for(&mut self, cv: &mut Condvar, wake: Wake) -> (r: WaitTimeoutResult) {
        cv.raw.exc_wait_for(&mut self.raw, wake)
    }
}

} // verus!
