use locker::combinators::{DebugChecked, Fair, ReentrantPanic};
use locker::exclusive_lock::RawExclusiveLock;
use locker::mutex::adaptive::AdaptiveLock;
use locker::mutex::spin::SpinLock;
use locker::reentrant::FixedThread;

#[test]
fn reentrant_panic_records_its_owner() {
    let mut lock = ReentrantPanic::wrap(SpinLock::new(), FixedThread::new(7));
    lock.exc_lock();
    assert!(!lock.exc_try_lock());
    lock.exc_bump();
    assert!(!lock.exc_try_lock());
    lock.exc_unlock();
    assert!(lock.exc_try_lock());
    lock.exc_unlock();
}

#[test]
fn fair_lock_unlocks_fairly() {
    let mut lock = Fair(AdaptiveLock::new());
    lock.exc_lock();
    assert!(!lock.exc_try_lock());
    lock.exc_unlock();
    assert!(lock.exc_try_lock());
}

#[test]
fn debug_checked_defers_to_its_lock() {
    let mut lock = DebugChecked::from_lock(AdaptiveLock::new());
    assert!(lock.exc_try_lock());
    assert!(!lock.exc_try_lock());
    lock.exc_unlock();
    assert!(lock.exc_try_lock());
}

#[test]
fn checked_relock_reports_the_holder() {
    let mut lock = ReentrantPanic::wrap(SpinLock::new(), FixedThread::new(7));
    assert!(lock.exc_lock_checked().is_ok());
    assert!(lock.exc_lock_checked().is_err());
    lock.exc_unlock();
    assert!(lock.exc_lock_checked().is_ok());
}
