//! A global reentrant mutex over spinning locks
//!
//! Each global reentrant mutex is locked through one reentrant lock of a
//! shared set, picked by the address of the mutex.
use vstd::prelude::*;
use crate::mutex::global::{slot_of, GlobalTable, GLOBAL_SLOTS};
use crate::mutex::spin::SpinLock;

verus! {

/// The reentrant lock behind each slot of the global set
pub type ReLock<I> = crate::reentrant::simple::RawReentrantLock<SpinLock, I>;

/// The shared set of reentrant locks behind [`Global`]
pub type GlobalReentrantTable<I> = GlobalTable<ReLock<I>>;

/// a global reentrant mutex
pub type ReentrantMutex<T> = crate::reentrant::ReentrantMutex<Global, T>;

/// A global lock set of reentrant locks
pub struct Global {
    addr: usize,
}

impl Global {
    /// The address of the guarded object
    pub closed spec fn addr_view(&self) -> usize {
        self.addr
    }

    /// The global lock of the object at `addr`
    pub fn at(addr: usize) -> (r: Self)
        ensures
            r.addr_view() == addr,
    {
        Global { addr }
    }

    /// Create a new global reentrant mutex for the object at `addr`
    pub fn remutex<T>(addr: usize, value: T) -> (r: ReentrantMutex<T>)
        ensures
            r.lock_view().addr_view() == addr,
            r.value_view() == value,
    {
        crate::reentrant::ReentrantMutex::from_raw_parts(Global { addr }, value)
    }

    /// The slot of the set that this global lock uses
    pub fn slot(&self) -> (r: usize)
        ensures
            r == slot_of(self.addr_view()),
            r < GLOBAL_SLOTS,
    {
        self.addr % GLOBAL_SLOTS
    }

    /// Checks if two global locks will contend
    pub fn will_contend(&self, other: &Self) -> (r: bool)
        ensures
            r == (slot_of(self.addr_view()) == slot_of(other.addr_view())),
    {
        self.slot() == other.slot()
    }

    /// Checks if two global reentrant mutexes will contend
    pub fn will_remutex_contend<T, U>(a: &ReentrantMutex<T>, b: &ReentrantMutex<U>) -> (r: bool)
        ensures
            r == (slot_of(a.lock_view().addr_view()) == slot_of(b.lock_view().addr_view())),
    {
        a.raw().will_contend(b.raw())
    }
}

} // verus!
