use locker::exclusive_lock::ExclusiveGuard;
use locker::mutex::global::{GlobalLock, GlobalMutexTable};
use locker::reentrant::global::Global;
use locker::remutex::global::GlobalLock as ReGlobal;

// A global lock takes no room of its own, so two global mutexes that stand
// side by side in an array lie the size of their value apart.
const BASE: usize = 0x1000;

#[test]
fn test_contention() {
    let mut table = GlobalMutexTable::new();

    let stride = core::mem::size_of::<[i32; 61]>();
    let mtx = [
        GlobalLock::mutex(BASE, [0; 61]),
        GlobalLock::mutex(BASE + stride, [0; 61]),
    ];

    let [ref a, ref b] = mtx;
    assert!(GlobalLock::will_mutex_contend(a, b));

    table.exc_lock(a.raw().inner());
    assert!(!table.exc_try_lock(b.raw().inner()));
    table.exc_unlock(a.raw().inner());

    let stride = core::mem::size_of::<[i32; 60]>();
    let mtx = [
        GlobalLock::mutex(BASE, [0; 60]),
        GlobalLock::mutex(BASE + stride, [0; 60]),
    ];

    let [ref a, ref b] = mtx;
    assert!(!GlobalLock::will_mutex_contend(a, b));

    table.exc_lock(a.raw().inner());
    table.exc_lock(b.raw().inner());
}

#[test]
fn global_locks_contend_by_slot() {
    let a = GlobalLock::at(0);
    assert!(a.will_contend(&GlobalLock::at(61)));
    assert!(a.will_contend(&GlobalLock::at(122)));
    assert!(!a.will_contend(&GlobalLock::at(60)));
    assert_eq!(GlobalLock::at(125).slot(), 3);
}

#[test]
fn global_remutex_and_reentrant_slots() {
    let a = ReGlobal::remutex(10, 1u8);
    let b = ReGlobal::remutex(71, 2u8);
    assert!(ReGlobal::will_remutex_contend(&a, &b));
    let c = Global::remutex(10, 1u8);
    let d = Global::remutex(11, 2u8);
    assert!(!Global::will_remutex_contend(&c, &d));
}

#[test]
fn global_mutex_guards_its_value() {
    let mut table = GlobalMutexTable::new();
    let mut a = GlobalLock::mutex(BASE, 3u32);
    let mut b = GlobalLock::mutex(BASE + 61, 4u32);
    let mut c = GlobalLock::mutex(BASE + 1, 5u32);
    {
        let mut guard = table.lock(&mut a);
        assert_eq!(*guard.get(), 3);
        assert_eq!(guard.replace(8), 3);
        ExclusiveGuard::unlock(guard);
    }
    assert_eq!(a.into_inner(), 8);

    // `b` shares the slot of `a`, which is free again; `c` has a slot of its own
    table.exc_lock(c.raw().inner());
    {
        let guard = table.try_lock(&mut b).expect("the slot of `b` is free");
        assert_eq!(*guard.get(), 4);
        ExclusiveGuard::unlock(guard);
    }
    assert!(table.try_lock(&mut c).is_none());
    table.exc_unlock(c.raw().inner());
    assert!(table.try_lock(&mut c).is_some());
}
