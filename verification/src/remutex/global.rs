//! A global reentrant mutex
//!
//! Each global reentrant mutex is locked through one reentrant lock of a
//! shared set, picked by the address of the mutex.
use vstd::prelude::*;
use crate::mutex::default::DefaultLock;
use crate::mutex::global::{slot_of, GlobalTable, GLOBAL_SLOTS};
use crate::remutex::counter::SubWord;

verus! {

/// The reentrant lock behind each slot of the global set
pub type ReLock<I> = crate::remutex::lock::ReLock<DefaultLock, SubWord, I>;

/// The shared set of reentrant locks behind [`GlobalLock`]
pub type GlobalRemutexTable<I> = GlobalTable<ReLock<I>>;

/// a global raw reentrant mutex
pub type RawReentrantMutex = crate::remutex::raw::ReentrantMutex<GlobalLock>;

/// a global reentrant mutex
pub type ReentrantMutex<T> = crate::remutex::ReentrantMutex<GlobalLock, T>;

/// A global lock set of [`ReLock`]s supplied with the
/// [default mutex lock](crate::mutex::default)
pub struct GlobalLock {
    addr: usize,
}

impl GlobalLock {
    /// The address of the guarded object
    pub closed spec fn addr_view(&self) -> usize {
        self.addr
    }

    /// The global lock of the object at `addr`
    pub fn at(addr: usize) -> (r: Self)
        ensures
            r.addr_view() == addr,
    {
        GlobalLock { addr }
    }

    /// Create a new global raw reentrant mutex for the object at `addr`
    pub fn raw_remutex(addr: usize) -> (r: RawReentrantMutex)
        ensures
            r.lock_view().addr_view() == addr,
    {
        crate::remutex::raw::ReentrantMutex::from_raw(GlobalLock { addr })
    }

    /// Create a new global reentrant mutex for the object at `addr`
    pub fn remutex<T>(addr: usize, value: T) -> (r: ReentrantMutex<T>)
        ensures
            r.lock_view().addr_view() == addr,
            r.value_view() == value,
    {
        crate::remutex::ReentrantMutex::from_raw_parts(Self::raw_remutex(addr), value)
    }

    /// The slot of the set that this global lock uses
    pub fn slot(&self) -> (r: usize)
        ensures
            r == slot_of(self.addr_view()),
            r < GLOBAL_SLOTS,
    {
        self.addr % GLOBAL_SLOTS
    }

    /// Checks if two global locks will contend
    pub fn will_contend(&self, other: &Self) -> (r: bool)
        ensures
            r == (slot_of(self.addr_view()) == slot_of(other.addr_view())),
    {
        self.slot() == other.slot()
    }

    /// Checks if two global reentrant mutexes will contend
    pub fn will_remutex_contend<T, U>(a: &ReentrantMutex<T>, b: &ReentrantMutex<U>) -> (r: bool)
        ensures
            r == (slot_of(a.lock_view().addr_view()) == slot_of(b.lock_view().addr_view())),
    {
        a.raw().inner().will_contend(b.raw().inner())
    }
}

} // verus!
