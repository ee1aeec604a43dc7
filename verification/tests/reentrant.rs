use std::cell::Cell;

use locker::mutex::local_simple::RawLock;
use locker::reentrant::simple::RawReentrantLock;
use locker::reentrant::{FixedThread, ReentrantMutex};

type SimpleReentrantMutex<T> = ReentrantMutex<RawReentrantLock<RawLock, FixedThread>, T>;

#[test]
fn simple_reentrant() {
    let mut mtx = SimpleReentrantMutex::new(Cell::new(0));

    let first = mtx.lock();

    assert_eq!(mtx.get(&first).get(), 0);

    let second = mtx.lock();
    mtx.get(&second).set(10);
    mtx.unlock(second);

    assert_eq!(mtx.get(&first).get(), 10);

    mtx.unlock(first);
}

type LockReentrantMutex<T> = locker::remutex::ReentrantMutex<
    locker::remutex::lock::ReLock<RawLock, locker::remutex::counter::SubWord, FixedThread>,
    T,
>;

#[test]
fn lock_reentrant() {
    let mut mtx = LockReentrantMutex::new(Cell::new(0));

    let first = mtx.lock();

    assert_eq!(mtx.get(&first).get(), 0);

    let second = mtx.lock();
    mtx.get(&second).set(10);
    mtx.unlock(second);

    assert_eq!(mtx.get(&first).get(), 10);

    mtx.unlock(first);
}

#[test]
fn simple_reentrant_multi() {
    let mut mtx = SimpleReentrantMutex::new(Cell::new(0));
    let other = FixedThread::new(2);

    let lock = mtx.lock();
    assert!(mtx.try_lock_from(&other).is_none());
    let again = mtx.try_lock().expect("the holder locks again at once");
    mtx.unlock(again);

    assert_eq!(mtx.get(&lock).get(), 0);

    let second = mtx.lock();
    mtx.get(&second).set(10);
    mtx.unlock(second);

    assert_eq!(mtx.get(&lock).get(), 10);

    mtx.unlock(lock);

    let theirs = mtx.try_lock_from(&other).expect("the lock is free again");
    let seen = mtx.get(&theirs).get();
    assert!(seen == 0 || seen == 10);
    assert!(mtx.try_lock().is_none());
    mtx.unlock_owned(theirs);
    assert!(mtx.try_lock().is_some());
}

#[test]
fn lock_reentrant_multi() {
    let mut mtx = LockReentrantMutex::new(Cell::new(0));
    let other = FixedThread::new(2);

    let lock = mtx.lock();
    assert!(mtx.try_lock_from(&other).is_none());
    let again = mtx.try_lock().expect("the holder locks again at once");
    mtx.unlock(again);

    assert_eq!(mtx.get(&lock).get(), 0);

    let second = mtx.lock();
    mtx.get(&second).set(10);
    mtx.unlock(second);

    assert_eq!(mtx.get(&lock).get(), 10);

    mtx.unlock(lock);

    let theirs = mtx.try_lock_from(&other).expect("the lock is free again");
    let seen = mtx.get(&theirs).get();
    assert!(seen == 0 || seen == 10);
    assert!(mtx.try_lock().is_none());
    mtx.unlock_owned(theirs);
    assert!(mtx.try_lock().is_some());
}
