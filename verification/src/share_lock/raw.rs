//! Guards of *shr locks*
use vstd::prelude::*;
use core::marker::PhantomData;

verus! {

/// A token standing for one *shr lock* held on a lock of type `L`
///
/// Several *shr locks* can be held at once, so the token borrows nothing: the
/// lock word is handed back, together with the token, to release it.
pub struct RawShareGuard<L> {
    _lock: PhantomData<L>,
}

impl<L> RawShareGuard<L> {
    /// A token for a *shr lock* that has just been acquired
    pub fn from_raw() -> (r: Self) {
        RawShareGuard { _lock: PhantomData }
    }
}

/// A token standing for one *shr lock* on a lock that protects a value of type `T`
pub struct ShareGuard<L, T> {
    raw: RawShareGuard<L>,
    _value: PhantomData<T>,
}

impl<L, T> ShareGuard<L, T> {
    /// Create a new guard from the given raw guard
    pub fn from_raw_parts(raw: RawShareGuard<L>) -> (r: Self) {
        ShareGuard { raw, _value: PhantomData }
    }

    /// Decomposes the guard into its raw guard
    pub fn into_raw_parts(g: Self) -> (r: RawShareGuard<L>) {
        g.raw
    }

    /// The raw guard
    pub fn raw(g: &Self) -> (r: &RawShareGuard<L>) {
        &g.raw
    }
}

} // verus!
