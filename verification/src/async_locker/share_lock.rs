//! Shared guards of asynchronous locks
use vstd::prelude::*;

pub mod guard;
pub mod raw;

pub use guard::ShareGuard;
pub use raw::RawShareGuard;

verus! {
} // verus!
