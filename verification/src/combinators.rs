//! A bunch of useful combinators that can by applied to any lock
use vstd::prelude::*;

pub mod always_fair;
pub mod debug_checked;
pub mod reentrant_panic;

pub use always_fair::Fair;
pub use debug_checked::DebugChecked;
pub use reentrant_panic::ReentrantPanic;

verus! {
} // verus!
