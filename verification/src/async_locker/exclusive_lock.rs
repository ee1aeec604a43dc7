//! Exclusive guards of asynchronous locks
use vstd::prelude::*;

pub mod guard;
pub mod raw;

pub use guard::ExclusiveGuard;
pub use raw::RawExclusiveGuard;

verus! {
} // verus!
