//! A global lock set that uses the [default mutex lock](crate::mutex::default)
//!
//! A global lock takes no room of its own: the object it guards is locked
//! through one lock of a shared set, picked by the object's address. Two
//! objects whose addresses pick the same lock contend with each other.
use vstd::prelude::*;
use crate::exclusive_lock::{ExclusiveGuard, RawExclusiveGuard, RawExclusiveLock, RawExclusiveLockFair};
use crate::share_lock::{RawShareLock, RawShareLockFair};
use crate::mutex::default::DefaultLock;

verus! {

/// The number of locks in a global lock set
///
/// It is prime, so that unrelated objects that lie next to each other in
/// memory are unlikely to pick the same lock.
pub const GLOBAL_SLOTS: usize = 61;

/// The lock of a global lock set that guards the object at `addr`
pub open spec fn slot_of(addr: usize) -> int {
    (addr % GLOBAL_SLOTS) as int
}

/// a global raw mutex
pub type RawMutex = crate::mutex::raw::Mutex<GlobalLock>;

/// a global mutex
pub type Mutex<T> = crate::mutex::Mutex<GlobalLock, T>;

/// A global lock: the handle of the object at an address to its lock in a
/// [`GlobalTable`]
pub struct GlobalLock {
    addr: usize,
}

impl GlobalLock {
    /// The address of the guarded object
    pub closed spec fn addr_view(&self) -> usize {
        self.addr
    }

    /// The global lock of the object at `addr`
    pub fn at(addr: usize) -> (r: Self)
        ensures
            r.addr_view() == addr,
    {
        GlobalLock { addr }
    }

    /// Create a new global raw mutex for the object at `addr`
    pub fn raw_mutex(addr: usize) -> (r: RawMutex)
        ensures
            r.lock_view().addr_view() == addr,
    {
        crate::mutex::raw::Mutex::from_raw(GlobalLock { addr })
    }

    /// Create a new global mutex for the object at `addr`
    pub fn mutex<T>(addr: usize, value: T) -> (r: Mutex<T>)
        ensures
            r.lock_view().addr_view() == addr,
            r.value_view() == value,
    {
        crate::mutex::Mutex::from_raw_parts(Self::raw_mutex(addr), value)
    }

    /// The lock of the set that this global lock uses
    pub fn slot(&self) -> (r: usize)
        ensures
            r == slot_of(self.addr_view()),
            r < GLOBAL_SLOTS,
    {
        self.addr % GLOBAL_SLOTS
    }

    /// Checks if two global locks will contend
    pub fn will_contend(&self, other: &Self) -> (r: bool)
        ensures
            r == (slot_of(self.addr_view()) == slot_of(other.addr_view())),
    {
        self.slot() == other.slot()
    }

    /// Checks if two global mutexes will contend
    pub fn will_mutex_contend<T, U>(a: &Mutex<T>, b: &Mutex<U>) -> (r: bool)
        ensures
            r == (slot_of(a.lock_view().addr_view()) == slot_of(b.lock_view().addr_view())),
    {
        a.raw().inner().will_contend(b.raw().inner())
    }
}

/// The shared set of locks behind the global locks
pub struct GlobalTable<L> {
    locks: Vec<L>,
}

/// The global set of default locks used by [`GlobalLock`]
pub type GlobalMutexTable = GlobalTable<DefaultLock>;

impl<L> GlobalTable<L> {
    /// The locks of the set, by slot
    pub closed spec fn view(&self) -> Seq<L> {
        self.locks@
    }

    /// The set holds one lock per slot
    pub open spec fn full(&self) -> bool {
        self@.len() == GLOBAL_SLOTS
    }
}

impl<L: crate::Init> GlobalTable<L> {
    /// A set of locks, all in their initial state
    pub fn new() -> (r: Self)
        ensures
            r.full(),
            forall|i: int| 0 <= i < GLOBAL_SLOTS ==> (#[trigger] r@[i]).is_init(),
    {
        let mut locks: Vec<L> = Vec::new();
        let mut n: usize = 0;
        while n < GLOBAL_SLOTS
            invariant
                n <= GLOBAL_SLOTS,
                locks@.len() == n,
                forall|i: int| 0 <= i < n ==> (#[trigger] locks@[i]).is_init(),
            decreases GLOBAL_SLOTS - n,
        {
            locks.push(L::init());
            n = n + 1;
        }
        GlobalTable { locks }
    }
}

impl<L: RawExclusiveLock> GlobalTable<L> {
    /// Every lock of the set is in a state its operations can start from
    pub open spec fn exc_table_wf(&self) -> bool {
        &&& self.full()
        &&& forall|i: int| 0 <= i < GLOBAL_SLOTS ==> (#[trigger] self@[i]).exc_wf()
    }

    /// acquire the *exc lock* of the global lock `lock`, which must be available
    pub fn exc_lock(&mut self, lock: &GlobalLock)
        requires
            old(self).exc_table_wf(),
            old(self)@[slot_of(lock.addr_view())].exc_available(),
        ensures
            final(self).exc_table_wf(),
            final(self)@[slot_of(lock.addr_view())].exc_count()
                == old(self)@[slot_of(lock.addr_view())].exc_count() + 1,
            forall|i: int| 0 <= i < GLOBAL_SLOTS && i != slot_of(lock.addr_view())
                ==> final(self)@[i] == old(self)@[i],
    {
        let i = lock.slot();
        let mut l = self.locks.remove(i);
        l.exc_lock();
        self.locks.insert(i, l);
    }

    /// attempts to acquire the *exc lock* of the global lock `lock`
    pub fn exc_try_lock(&mut self, lock: &GlobalLock) -> (r: bool)
        requires
            old(self).exc_table_wf(),
        ensures
            final(self).exc_table_wf(),
            r == old(self)@[slot_of(lock.addr_view())].exc_available(),
            r ==> final(self)@[slot_of(lock.addr_view())].exc_count()
                == old(self)@[slot_of(lock.addr_view())].exc_count() + 1,
            !r ==> final(self)@ == old(self)@,
            forall|i: int| 0 <= i < GLOBAL_SLOTS && i != slot_of(lock.addr_view())
                ==> final(self)@[i] == old(self)@[i],
    {
        let i = lock.slot();
        let mut l = self.locks.remove(i);
        let r = l.exc_try_lock();
        self.locks.insert(i, l);
        proof {
            if !r {
                assert(self@ =~= old(self)@);
            }
        }
        r
    }

    /// releases the *exc lock* of the global lock `lock`
    pub fn exc_unlock(&mut self, lock: &GlobalLock)
        requires
            old(self).exc_table_wf(),
            old(self)@[slot_of(lock.addr_view())].exc_count() > 0,
        ensures
            final(self).exc_table_wf(),
            final(self)@[slot_of(lock.addr_view())].exc_count()
                == old(self)@[slot_of(lock.addr_view())].exc_count() - 1,
            final(self)@[slot_of(lock.addr_view())].exc_count() == 0
                ==> final(self)@[slot_of(lock.addr_view())].exc_available(),
            forall|i: int| 0 <= i < GLOBAL_SLOTS && i != slot_of(lock.addr_view())
                ==> final(self)@[i] == old(self)@[i],
    {
        let i = lock.slot();
        let mut l = self.locks.remove(i);
        l.exc_unlock();
        self.locks.insert(i, l);
    }

    /// Temporarily yields the *exc lock* of the global lock `lock`
    pub fn exc_bump(&mut self, lock: &GlobalLock)
        requires
            old(self).exc_table_wf(),
            old(self)@[slot_of(lock.addr_view())].exc_count() > 0,
        ensures
            final(self).exc_table_wf(),
            final(self)@[slot_of(lock.addr_view())].exc_count()
                == old(self)@[slot_of(lock.addr_view())].exc_count(),
            forall|i: int| 0 <= i < GLOBAL_SLOTS && i != slot_of(lock.addr_view())
                ==> final(self)@[i] == old(self)@[i],
            final(self)@[slot_of(lock.addr_view())] == old(self)@[slot_of(lock.addr_view())].exc_bumped(),
    {
        let i = lock.slot();
        let mut l = self.locks.remove(i);
        l.exc_bump();
        self.locks.insert(i, l);
    }
}

impl<L: RawExclusiveLock> GlobalTable<L> {
    /// Locks the global mutex `mtx` through the lock of its slot, which must
    /// be available, and returns a guard on its value
    pub fn lock<'a, T>(&'a mut self, mtx: &'a mut Mutex<T>) -> (r: ExclusiveGuard<'a, L, T>)
        requires
            old(self).exc_table_wf(),
            old(self)@[slot_of(old(mtx).lock_view().addr_view())].exc_available(),
        ensures
            r.raw.lock_view().exc_wf(),
            r.raw.lock_view().exc_count()
                == old(self)@[slot_of(old(mtx).lock_view().addr_view())].exc_count() + 1,
            r.value_view() == old(mtx).value_view(),
            final(self)@ == old(self)@.update(slot_of(old(mtx).lock_view().addr_view()), *final(r.raw.lock)),
            final(mtx).value_view() == *final(r.value),
            final(mtx).lock_view() == old(mtx).lock_view(),
    {
        let i = mtx.raw().inner().slot();
        let lock = &mut self.locks[i];
        let raw = RawExclusiveGuard::new(lock);
        ExclusiveGuard::from_raw_parts(raw, mtx.get_mut())
    }

    /// Attempts to lock the global mutex `mtx` through the lock of its slot;
    /// gives a guard on its value if the lock was available, and leaves the
    /// set as it was if not
    pub fn try_lock<'a, T>(&'a mut self, mtx: &'a mut Mutex<T>) -> (r: Option<ExclusiveGuard<'a, L, T>>)
        requires
            old(self).exc_table_wf(),
        ensures
            r is Some <==> old(self)@[slot_of(old(mtx).lock_view().addr_view())].exc_available(),
            r matches Some(g) ==> {
                &&& g.raw.lock_view().exc_wf()
                &&& g.raw.lock_view().exc_count()
                    == old(self)@[slot_of(old(mtx).lock_view().addr_view())].exc_count() + 1
                &&& g.value_view() == old(mtx).value_view()
                &&& final(self)@ == old(self)@.update(slot_of(old(mtx).lock_view().addr_view()), *final(g.raw.lock))
                &&& final(mtx).value_view() == *final(g.value)
            },
            r is None ==> final(self)@ == old(self)@ && final(mtx).value_view() == old(mtx).value_view(),
            final(mtx).lock_view() == old(mtx).lock_view(),
    {
        let i = mtx.raw().inner().slot();
        let lock = &mut self.locks[i];
        match RawExclusiveGuard::try_new(lock) {
            Some(raw) => Some(ExclusiveGuard::from_raw_parts(raw, mtx.get_mut())),
            None => None,
        }
    }
}

impl<L: RawExclusiveLockFair> GlobalTable<L> {
    /// releases the *exc lock* of the global lock `lock` fairly
    pub fn exc_unlock_fair(&mut self, lock: &GlobalLock)
        requires
            old(self).exc_table_wf(),
            old(self)@[slot_of(lock.addr_view())].exc_count() > 0,
        ensures
            final(self).exc_table_wf(),
            final(self)@[slot_of(lock.addr_view())].exc_count()
                == old(self)@[slot_of(lock.addr_view())].exc_count() - 1,
            final(self)@[slot_of(lock.addr_view())].exc_count() == 0
                ==> final(self)@[slot_of(lock.addr_view())].exc_available(),
            forall|i: int| 0 <= i < GLOBAL_SLOTS && i != slot_of(lock.addr_view())
                ==> final(self)@[i] == old(self)@[i],
    {
        let i = lock.slot();
        let mut l = self.locks.remove(i);
        l.exc_unlock_fair();
        self.locks.insert(i, l);
    }

    /// Temporarily yields the *exc lock* of the global lock `lock`, fairly
    pub fn exc_bump_fair(&mut self, lock: &GlobalLock)
        requires
            old(self).exc_table_wf(),
            old(self)@[slot_of(lock.addr_view())].exc_count() > 0,
        ensures
            final(self).exc_table_wf(),
            final(self)@[slot_of(lock.addr_view())].exc_count()
                == old(self)@[slot_of(lock.addr_view())].exc_count(),
            forall|i: int| 0 <= i < GLOBAL_SLOTS && i != slot_of(lock.addr_view())
                ==> final(self)@[i] == old(self)@[i],
            final(self)@[slot_of(lock.addr_view())] == old(self)@[slot_of(lock.addr_view())].exc_bumped_fair(),
    {
        let i = lock.slot();
        let mut l = self.locks.remove(i);
        l.exc_bump_fair();
        self.locks.insert(i, l);
    }
}

impl<L: RawShareLock> GlobalTable<L> {
    /// Every lock of the set is in a state its operations can start from
    pub open spec fn shr_table_wf(&self) -> bool {
        &&& self.full()
        &&& forall|i: int| 0 <= i < GLOBAL_SLOTS ==> (#[trigger] self@[i]).shr_wf()
    }

    /// acquire a *shr lock* on the lock in slot `slot`, which must be available
    pub fn shr_lock_slot(&mut self, slot: usize)
        requires
            old(self).shr_table_wf(),
            slot < GLOBAL_SLOTS,
            old(self)@[slot as int].shr_available(),
        ensures
            final(self).shr_table_wf(),
            final(self)@[slot as int].shr_count() == old(self)@[slot as int].shr_count() + 1,
            forall|i: int| 0 <= i < GLOBAL_SLOTS && i != slot ==> final(self)@[i] == old(self)@[i],
    {
        let mut l = self.locks.remove(slot);
        l.shr_lock();
        self.locks.insert(slot, l);
    }

    /// attempts to acquire a *shr lock* on the lock in slot `slot`
    pub fn shr_try_lock_slot(&mut self, slot: usize) -> (r: bool)
        requires
            old(self).shr_table_wf(),
            slot < GLOBAL_SLOTS,
        ensures
            final(self).shr_table_wf(),
            r == old(self)@[slot as int].shr_available(),
            r ==> final(self)@[slot as int].shr_count() == old(self)@[slot as int].shr_count() + 1,
            !r ==> final(self)@ == old(self)@,
            forall|i: int| 0 <= i < GLOBAL_SLOTS && i != slot ==> final(self)@[i] == old(self)@[i],
    {
        let mut l = self.locks.remove(slot);
        let r = l.shr_try_lock();
        self.locks.insert(slot, l);
        proof {
            if !r {
                assert(self@ =~= old(self)@);
            }
        }
        r
    }

    /// acquires one more *shr lock* on the lock in slot `slot`
    pub fn shr_split_slot(&mut self, slot: usize)
        requires
            old(self).shr_table_wf(),
            slot < GLOBAL_SLOTS,
            old(self)@[slot as int].shr_count() > 0,
            old(self)@[slot as int].shr_split_room(),
        ensures
            final(self).shr_table_wf(),
            final(self)@[slot as int].shr_count() == old(self)@[slot as int].shr_count() + 1,
            forall|i: int| 0 <= i < GLOBAL_SLOTS && i != slot ==> final(self)@[i] == old(self)@[i],
    {
        let mut l = self.locks.remove(slot);
        l.shr_split();
        self.locks.insert(slot, l);
    }

    /// releases a *shr lock* on the lock in slot `slot`
    pub fn shr_unlock_slot(&mut self, slot: usize)
        requires
            old(self).shr_table_wf(),
            slot < GLOBAL_SLOTS,
            old(self)@[slot as int].shr_count() > 0,
        ensures
            final(self).shr_table_wf(),
            final(self)@[slot as int].shr_count() == old(self)@[slot as int].shr_count() - 1,
            final(self)@[slot as int].shr_count() == 0 ==> final(self)@[slot as int].shr_available(),
            forall|i: int| 0 <= i < GLOBAL_SLOTS && i != slot ==> final(self)@[i] == old(self)@[i],
    {
        let mut l = self.locks.remove(slot);
        l.shr_unlock();
        self.locks.insert(slot, l);
    }

    /// Temporarily yields a *shr lock* on the lock in slot `slot`
    pub fn shr_bump_slot(&mut self, slot: usize)
        requires
            old(self).shr_table_wf(),
            slot < GLOBAL_SLOTS,
            old(self)@[slot as int].shr_count() > 0,
        ensures
            final(self).shr_table_wf(),
            final(self)@[slot as int].shr_count() == old(self)@[slot as int].shr_count(),
            forall|i: int| 0 <= i < GLOBAL_SLOTS && i != slot ==> final(self)@[i] == old(self)@[i],
            final(self)@[slot as int] == old(self)@[slot as int].shr_bumped(),
    {
        let mut l = self.locks.remove(slot);
        l.shr_bump();
        self.locks.insert(slot, l);
    }
}

impl<L: RawShareLockFair> GlobalTable<L> {
    /// releases a *shr lock* on the lock in slot `slot`, fairly
    pub fn shr_unlock_fair_slot(&mut self, slot: usize)
        requires
            old(self).shr_table_wf(),
            slot < GLOBAL_SLOTS,
            old(self)@[slot as int].shr_count() > 0,
        ensures
            final(self).shr_table_wf(),
            final(self)@[slot as int].shr_count() == old(self)@[slot as int].shr_count() - 1,
            final(self)@[slot as int].shr_count() == 0 ==> final(self)@[slot as int].shr_available(),
            forall|i: int| 0 <= i < GLOBAL_SLOTS && i != slot ==> final(self)@[i] == old(self)@[i],
    {
        let mut l = self.locks.remove(slot);
        l.shr_unlock_fair();
        self.locks.insert(slot, l);
    }

    /// Temporarily yields a *shr lock* on the lock in slot `slot`, fairly
    pub fn shr_bump_fair_slot(&mut self, slot: usize)
        requires
            old(self).shr_table_wf(),
            slot < GLOBAL_SLOTS,
            old(self)@[slot as int].shr_count() > 0,
        ensures
            final(self).shr_table_wf(),
            final(self)@[slot as int].shr_count() == old(self)@[slot as int].shr_count(),
            forall|i: int| 0 <= i < GLOBAL_SLOTS && i != slot ==> final(self)@[i] == old(self)@[i],
            final(self)@[slot as int] == old(self)@[slot as int].shr_bumped_fair(),
    {
        let mut l = self.locks.remove(slot);
        l.shr_bump_fair();
        self.locks.insert(slot, l);
    }
}

/// Two objects contend for the same global lock exactly when their addresses
/// lie a multiple of the number of locks apart
pub proof fn contend_iff_apart_by_multiple(a: usize, b: usize)
    requires
        a <= b,
    ensures
        (slot_of(a) == slot_of(b)) <==> (b - a) % (GLOBAL_SLOTS as int) == 0,
{
    let n = GLOBAL_SLOTS as int;
    let d = b - a;
    vstd::arithmetic::div_mod::lemma_fundamental_div_mod(a as int, n);
    vstd::arithmetic::div_mod::lemma_fundamental_div_mod(b as int, n);
    vstd::arithmetic::div_mod::lemma_fundamental_div_mod(d, n);
    vstd::arithmetic::div_mod::lemma_mod_bound(a as int, n);
    vstd::arithmetic::div_mod::lemma_mod_bound(b as int, n);
    vstd::arithmetic::div_mod::lemma_mod_bound(d, n);
    if slot_of(a) == slot_of(b) {
        vstd::arithmetic::div_mod::lemma_mod_sub_multiples_vanish(b as int, n);
        assert(d == n * (b as int / n) - n * (a as int / n));
        vstd::arithmetic::mul::lemma_mul_is_distributive_sub(n, b as int / n, a as int / n);
        vstd::arithmetic::div_mod::lemma_mod_multiples_basic(b as int / n - a as int / n, n);
        vstd::arithmetic::mul::lemma_mul_is_commutative(n, b as int / n - a as int / n);
    } else {
        if d % n == 0 {
            assert(b as int == a as int + n * (d / n));
            vstd::arithmetic::mul::lemma_mul_is_commutative(n, d / n);
            vstd::arithmetic::div_mod::lemma_mod_multiples_vanish(d / n, a as int, n);
        }
    }
}

} // verus!
