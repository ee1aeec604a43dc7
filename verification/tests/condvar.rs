use locker::condvar::{Condvar, Notify, RawCondvar, Wake, WaitTimeoutResult};
use locker::exclusive_lock::{ExclusiveGuard, RawExclusiveGuard, RawExclusiveLock};
use locker::mutex::adaptive::AdaptiveLock;
use locker::mutex::local_simple::RawLock;
use locker::park::UnparkOutcome;
use locker::reentrant::simple::RawReentrantLock;
use locker::reentrant::FixedThread;
use locker::share_lock::{RawShareGuard, RawShareLock, ShareGuard};

#[test]
fn notify_without_waiters_does_nothing() {
    let cv = Condvar::new();
    assert!(matches!(cv.notify_one(), Notify::Done));
    assert!(matches!(cv.notify_all(), Notify::Done));
}

#[test]
fn timed_out_last_waiter_clears_the_flag() {
    let mut cv = RawCondvar::new();
    let mut lock = AdaptiveLock::new();
    lock.exc_lock();
    let mut guard = RawExclusiveGuard::from_raw(&mut lock);
    let r = cv.exc_wait_until(&mut guard, Wake::TimedOut { was_last: true });
    assert!(r.timed_out());
    assert!(matches!(cv.notify_one(), Notify::Done));
    guard.unlock();
    assert!(lock.exc_try_lock());
}

#[test]
fn notified_waiter_leaves_the_flag_for_the_notifier() {
    let mut cv = Condvar::new();
    let mut mtx = AdaptiveLock::mutex(1);
    let mut guard = mtx.lock();
    cv.wait(&mut guard, Wake::Notified);
    assert_eq!(*guard.get(), 1);
    ExclusiveGuard::unlock(guard);
    assert!(matches!(cv.notify_one(), Notify::Unpark));
    let woke = cv.notify_one_slow(UnparkOutcome { unparked_threads: 1, have_more_threads: true, be_fair: false });
    assert!(woke);
    assert!(matches!(cv.notify_all(), Notify::Unpark));
    assert_eq!(cv.notify_all_slow(2), 2);
    assert!(matches!(cv.notify_one(), Notify::Done));
}

#[test]
fn wait_timeout_result_reports_the_timeout() {
    assert!(WaitTimeoutResult::from_timed_out(true).timed_out());
    assert!(!WaitTimeoutResult::from_timed_out(false).timed_out());
}

#[test]
fn wait_that_never_slept_keeps_the_lock() {
    let mut cv = RawCondvar::new();
    let mut lock = AdaptiveLock::new();
    lock.exc_lock();
    let mut guard = RawExclusiveGuard::from_raw(&mut lock);
    let r = cv.exc_wait_for(&mut guard, Wake::Invalid);
    assert!(r.timed_out());
    assert!(matches!(cv.notify_all(), Notify::Done));
    guard.unlock();
    assert!(lock.exc_try_lock());
}

#[test]
fn shared_wait_releases_and_retakes_the_shared_lock() {
    let mut cv = Condvar::new();
    let mut lock = RawReentrantLock::from_raw_parts(RawLock::new(), FixedThread::new(1));
    lock.shr_lock();
    let guard: ShareGuard<_, u32> = ShareGuard::from_raw_parts(RawShareGuard::from_raw());
    let r = cv.shr_wait_until(&mut lock, &guard, Wake::TimedOut { was_last: true });
    assert!(r.timed_out());
    assert!(matches!(cv.notify_one(), Notify::Done));
    cv.shr_wait(&mut lock, &guard, Wake::Notified);
    assert!(matches!(cv.notify_all(), Notify::Unpark));
    lock.shr_unlock();
    assert!(lock.shr_try_lock());
}
