use std::sync::atomic::Ordering;

use locker::exclusive_lock::{ExclusiveGuard, RawExclusiveLock, RawExclusiveLockFair};
use locker::mutex::adaptive::AdaptiveLock;
use locker::mutex::default::DefaultLock;
use locker::mutex::local_tagged::LocalTaggedLock;
use locker::mutex::spin::SpinLock;
use locker::mutex::splittable::SplitLock;
use locker::mutex::tagged::TaggedLock;
use locker::mutex::word_lock::WordLock;
use locker::park::UnparkOutcome;
use locker::exclusive_lock::SplittableExclusiveLock;

#[test]
fn spin_lock_excludes_while_held() {
    let mut lock = SpinLock::new();
    assert!(lock.exc_try_lock());
    assert!(!lock.exc_try_lock());
    lock.exc_unlock();
    assert!(lock.exc_try_lock());
    lock.exc_unlock();
}

#[test]
fn adaptive_lock_then_unlock_frees() {
    let mut lock = AdaptiveLock::new();
    lock.exc_lock();
    assert!(!lock.exc_try_lock());
    lock.exc_unlock_fair();
    assert!(lock.exc_try_lock());
    lock.exc_bump();
    assert!(!lock.exc_try_lock());
    lock.exc_unlock();
    assert!(lock.exc_try_lock());
}

#[test]
fn default_mutex_guards_its_value() {
    let mut mtx = DefaultLock::mutex(5);
    {
        let mut guard = mtx.lock();
        assert_eq!(*guard.get(), 5);
        assert_eq!(guard.replace(7), 5);
        ExclusiveGuard::unlock(guard);
    }
    assert!(mtx.try_lock().is_some());
    assert_eq!(mtx.into_inner(), 7);
}

#[test]
fn try_lock_on_a_free_mutex_succeeds() {
    let mut mtx = SpinLock::mutex(1u32);
    let guard = mtx.try_lock().unwrap();
    assert_eq!(*guard.get(), 1);
    ExclusiveGuard::unlock(guard);
    *mtx.get_mut() = 3;
    assert_eq!(mtx.into_inner(), 3);
}

#[test]
fn tagged_lock_keeps_its_tag_across_locking() {
    let mut lock = TaggedLock::with_tag(0b10_0101);
    assert_eq!(lock.tag(Ordering::Relaxed), 0b10_0101);
    lock.exc_lock();
    assert_eq!(lock.tag(Ordering::Relaxed), 0b10_0101);
    assert_eq!(lock.or_tag(0b1010, Ordering::Relaxed), 0b10_0101);
    assert!(!lock.exc_try_lock());
    lock.exc_unlock();
    assert_eq!(lock.tag(Ordering::Relaxed), 0b10_1111);
    assert_eq!(lock.and_tag(0b11, Ordering::Relaxed), 0b10_1111);
    assert_eq!(lock.swap_tag(0xff, Ordering::Relaxed), 0b11);
    assert_eq!(lock.tag(Ordering::Relaxed), 0b11_1111);
    assert!(lock.exc_try_lock());
}

#[test]
fn tagged_lock_update_tag() {
    let mut lock = TaggedLock::with_tag(4);
    assert_eq!(lock.update_tag(Ordering::Relaxed, Ordering::Relaxed, |t| Some(t + 1)), Ok(4));
    assert_eq!(lock.tag(Ordering::Relaxed), 5);
    assert_eq!(lock.update_tag(Ordering::Relaxed, Ordering::Relaxed, |_| None), Err(5));
    assert_eq!(lock.tag(Ordering::Relaxed), 5);
}

#[test]
fn local_tagged_lock_tags() {
    let mut lock = LocalTaggedLock::with_tag(0x85);
    assert_eq!(lock.tag(), 0x05);
    lock.exc_lock();
    assert_eq!(lock.replace_tag(0x7f), 0x05);
    assert_eq!(lock.tag(), 0x7f);
    assert!(!lock.exc_try_lock());
    lock.exc_unlock();
    lock.set_tag(3);
    assert_eq!(lock.or_tag(4), 3);
    assert_eq!(lock.and_tag(6), 7);
    assert_eq!(lock.tag(), 6);
}

#[test]
fn split_lock_counts_its_locks() {
    let mut lock = SplitLock::new();
    lock.exc_lock();
    lock.exc_split();
    assert!(!lock.exc_try_lock());
    lock.exc_unlock();
    assert!(!lock.exc_try_lock());
    lock.exc_unlock();
    assert!(lock.exc_try_lock());
}

#[test]
fn word_lock_queue_join_and_leave() {
    let mut lock = WordLock::new();
    lock.exc_lock();
    lock.enqueue(0x1000);
    lock.enqueue(0x2000);
    lock.remove_waiter(0x2000);
    lock.remove_waiter(0x1000);
    assert!(!lock.exc_try_lock());
    lock.exc_unlock();
    assert!(lock.exc_try_lock());
}

#[test]
fn word_lock_decisions() {
    assert_eq!(WordLock::try_lock_word(0), Some(1));
    assert_eq!(WordLock::try_lock_word(1), None);
    assert_eq!(WordLock::unlock_fast_word(1), Some(0));
    assert_eq!(WordLock::unlock_fast_word(0x1001), None);
}

#[test]
fn adaptive_lock_decisions() {
    assert_eq!(AdaptiveLock::try_lock_word(0), Some(1));
    assert_eq!(AdaptiveLock::try_lock_word(1), None);
    assert_eq!(AdaptiveLock::unlock_fast_word(1), Some(0));
    assert_eq!(AdaptiveLock::unlock_fast_word(3), None);
    assert_eq!(AdaptiveLock::mark_parked_if_locked_word(1), Some(3));
    assert_eq!(AdaptiveLock::mark_parked_if_locked_word(0), None);
    assert!(AdaptiveLock::park_validate(3));
    assert!(!AdaptiveLock::park_validate(1));
}

#[test]
fn split_lock_decisions() {
    assert_eq!(SplitLock::try_lock_word(0), Some(2));
    assert_eq!(SplitLock::try_lock_word(1), Some(3));
    assert_eq!(SplitLock::try_lock_word(2), None);
    // the last holder always goes through the slow path
    assert_eq!(SplitLock::unlock_fast_word(2), None);
    assert_eq!(SplitLock::unlock_fast_word(3), None);
    // a holder that is not the last one only drops its count
    assert_eq!(SplitLock::unlock_fast_word(4), Some(2));
    assert_eq!(SplitLock::unlock_fast_word(5), Some(3));
}

#[test]
fn local_tagged_mutex_guards_its_value() {
    let mut mtx = LocalTaggedLock::mutex(5);
    assert_eq!(mtx.raw().inner().tag(), 0);
    {
        let mut guard = mtx.lock();
        assert_eq!(guard.replace(6), 5);
        ExclusiveGuard::unlock(guard);
    }
    assert!(mtx.try_lock().is_some());
    assert_eq!(mtx.into_inner(), 6);
    let mut raw = LocalTaggedLock::raw_mutex();
    assert!(raw.try_lock().is_some());
}

#[test]
fn handed_off_lock_stays_locked() {
    let handoff = UnparkOutcome { unparked_threads: 1, have_more_threads: false, be_fair: true };
    let nobody = UnparkOutcome::nobody_parked();

    let mut lock = AdaptiveLock::new();
    lock.exc_lock();
    assert_eq!(lock.unlock_slow_with(&handoff, false), 1);
    assert!(!lock.exc_try_lock());
    assert_eq!(lock.unlock_slow_with(&nobody, false), 0);
    assert!(lock.exc_try_lock());

    let mut lock = TaggedLock::with_tag(5);
    lock.exc_lock();
    assert_eq!(lock.unlock_slow_with(&handoff, false), 1);
    assert!(!lock.exc_try_lock());
    assert_eq!(lock.unlock_slow_with(&nobody, true), 0);
    assert_eq!(lock.tag(Ordering::Relaxed), 5);
    assert!(lock.exc_try_lock());

    let mut lock = SplitLock::new();
    lock.exc_lock();
    let unfair = UnparkOutcome { unparked_threads: 1, have_more_threads: true, be_fair: false };
    assert_eq!(lock.unlock_slow_with(&unfair, false), 0);
    // released, with the park bit left for the threads still parked
    assert!(lock.exc_try_lock());
}

#[test]
fn mapped_guard_reaches_a_component() {
    let mut mtx = DefaultLock::mutex((1u32, 2u32));
    {
        let guard = mtx.lock();
        let mut first = ExclusiveGuard::map(guard, |pair: &mut (u32, u32)| &mut pair.0);
        assert_eq!(first.replace(5), 1);
        ExclusiveGuard::unlock(first);
    }
    assert!(mtx.try_lock().is_some());
    assert_eq!(mtx.into_inner(), (5, 2));
}

#[test]
fn failed_try_map_gives_the_guard_back() {
    let mut mtx = DefaultLock::mutex((1u32, 2u32));
    let guard = mtx.lock();
    let back = match ExclusiveGuard::try_map(guard, |pair: &mut (u32, u32)| {
        if pair.0 > 1 { Ok(&mut pair.1) } else { Err(("too small", pair)) }
    }) {
        Ok(_) => panic!("the first component is 1"),
        Err(err) => {
            assert_eq!(err.0, "too small");
            err.1
        }
    };
    assert_eq!(*back.get(), (1, 2));
    let second = match ExclusiveGuard::try_map(back, |pair: &mut (u32, u32)| Ok::<_, (&str, &mut (u32, u32))>(&mut pair.1)) {
        Ok(g) => g,
        Err(_) => panic!("the closure never fails"),
    };
    assert_eq!(*second.get(), 2);
    ExclusiveGuard::unlock(second);
}
