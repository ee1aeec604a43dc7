//! Markers that specify what auto traits can't be implemented for guards
use vstd::prelude::*;
use core::marker::PhantomData;

verus! {

/// A marker to be used with [`RawLockInfo`](crate::RawLockInfo)'s guard trait
/// types
///
/// These should be zero-sized and `Copy`
pub trait Marker: Sized {}

/// A [`Marker`] that has a value
pub trait Inhabitted: Marker {
    /// The value that [`Inhabitted::init`] gives
    spec fn inhabitant() -> Self;

    /// A value of `Self`
    fn init() -> (r: Self)
        ensures
            r == Self::inhabitant(),
    ;
}

impl Marker for () {}

impl Inhabitted for () {
    open spec fn inhabitant() -> Self {
        ()
    }

    fn init() -> (r: Self) {
    }
}

/// A [`Marker`] for guards that should not be sent to another thread
#[derive(Clone, Copy)]
pub struct NoSend(PhantomData<()>);

/// A [`Marker`] for guards that should not be shared between threads
#[derive(Clone, Copy)]
pub struct NoSync(PhantomData<()>);

impl Marker for NoSend {}

impl Inhabitted for NoSend {
    closed spec fn inhabitant() -> Self {
        NoSend(PhantomData)
    }

    fn init() -> (r: Self) {
        NoSend(PhantomData)
    }
}

impl Marker for NoSync {}

impl Inhabitted for NoSync {
    closed spec fn inhabitant() -> Self {
        NoSync(PhantomData)
    }

    fn init() -> (r: Self) {
        NoSync(PhantomData)
    }
}

impl<A: Marker, B: Marker> Marker for (A, B) {}

impl<A: Inhabitted, B: Inhabitted> Inhabitted for (A, B) {
    /// The pair of the two markers' values
    open spec fn inhabitant() -> Self {
        (A::inhabitant(), B::inhabitant())
    }

    fn init() -> (r: Self) {
        (A::init(), B::init())
    }
}

} // verus!
