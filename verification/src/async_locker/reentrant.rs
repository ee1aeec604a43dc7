//! Asynchronous reentrant mutexes over the reentrant locks of
//! [`crate::reentrant`]
use vstd::prelude::*;

pub mod raw;

verus! {
} // verus!
