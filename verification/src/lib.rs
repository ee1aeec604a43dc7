//! # locker
//!
//! Lock primitives described as verified state machines over plain lock words.
//! Every lock type keeps its state in ordinary integers and booleans; its
//! operations are the transitions the lock word goes through when they run
//! one after another, and each transition is stated exactly in its contract.
use vstd::prelude::*;

pub mod async_locker;
pub mod combinators;
pub mod condvar;
pub mod defer;
pub mod exclusive_lock;
pub mod guard;
pub mod marker;
pub mod mutex;
pub mod once;
pub mod park;
pub mod reentrant;
pub mod remutex;
pub mod rwlock;
pub mod share_lock;

pub use guard::{Mapped, Pure, TryMapError};

verus! {

/// A point in time, used by the timed locking operations
#[verifier::external_type_specification]
#[verifier::external_body]
pub struct ExInstant(std::time::Instant);

/// Create an item in its initial state
pub trait Init: Sized {
    /// Whether the value is in its initial state
    spec fn is_init(&self) -> bool;

    /// A default initial value for the lock
    fn init() -> (r: Self)
        ensures
            r.is_init(),
    ;
}

/// Some basic information about raw locks: which marker types their guards carry
pub trait RawLockInfo {
    /// A marker carried by every exclusive guard of this lock
    type ExclusiveGuardTraits;

    /// A marker carried by every shared guard of this lock
    type ShareGuardTraits;
}

/// The instant and duration types used by the timed locking operations
pub trait RawTimedLock: RawLockInfo {
    /// Instant type used for `try_lock_until`.
    type Instant;

    /// Duration type used for `try_lock_for`.
    type Duration;
}

} // verus!
