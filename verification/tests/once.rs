use std::cell::Cell;

use locker::once::local::RawLock;

#[test]
fn call_once_runs_the_work_once() {
    let runs = Cell::new(0);
    let mut once = RawLock::once();
    once.call_once(|| runs.set(runs.get() + 1));
    once.call_once(|| runs.set(runs.get() + 1));
    once.call_once_mut(|| runs.set(runs.get() + 1));
    assert_eq!(runs.get(), 1);
}

#[test]
fn force_call_once_reports_no_poison() {
    let seen = Cell::new(None);
    let mut once = RawLock::once();
    once.force_call_once(|state| seen.set(Some(state.is_poisoned())));
    assert_eq!(seen.get(), Some(false));
    once.force_call_once(|_| seen.set(None));
    assert_eq!(seen.get(), Some(false));
}

#[test]
fn once_cell_keeps_its_first_value() {
    let mut cell = RawLock::once_cell::<u32>();
    assert!(cell.get().is_none());
    assert_eq!(*cell.get_or_init(|| 4), 4);
    assert_eq!(*cell.get_or_init(|| 5), 4);
    *cell.get_mut().unwrap() = 6;
    assert_eq!(*cell.get_or_init_racy(|| 7), 6);
    assert_eq!(*cell.get_unchecked(), 6);
}

#[test]
fn lazy_builds_its_value_on_first_use() {
    let runs = Cell::new(0);
    let mut lazy = RawLock::lazy(|| {
        runs.set(runs.get() + 1);
        10
    });
    assert_eq!(runs.get(), 0);
    assert_eq!(*locker::once::local::Lazy::<_, _>::force(&mut lazy), 10);
    assert_eq!(*locker::once::local::Lazy::<_, _>::force(&mut lazy), 10);
    assert_eq!(runs.get(), 1);
}

#[test]
fn retry_lazy_is_told_about_poison() {
    let mut lazy = RawLock::retry_lazy(|state: &locker::once::OnceState| if state.is_poisoned() { 1 } else { 2 });
    assert_eq!(*locker::once::local::RetryLazy::<_, _>::force(&mut lazy), 2);
}

#[test]
fn racy_lazy_keeps_the_first_value() {
    let mut lazy = RawLock::racy_lazy(|| 3u8);
    assert_eq!(*locker::once::RacyLazy::force(&mut lazy), 3);
    *locker::once::RacyLazy::force_mut(&mut lazy) = 9;
    assert_eq!(*locker::once::RacyLazy::force(&mut lazy), 9);
}

#[test]
fn lazy_force_mut_builds_then_changes() {
    let runs = Cell::new(0);
    let mut lazy = RawLock::lazy(|| {
        runs.set(runs.get() + 1);
        10
    });
    *locker::once::local::Lazy::<_, _>::force_mut(&mut lazy) += 1;
    assert_eq!(*locker::once::local::Lazy::<_, _>::force(&mut lazy), 11);
    assert_eq!(runs.get(), 1);

    let mut retry = RawLock::retry_lazy(|_: &locker::once::OnceState| 2);
    *locker::once::local::RetryLazy::<_, _>::force_mut(&mut retry) = 5;
    assert_eq!(*locker::once::local::RetryLazy::<_, _>::force(&mut retry), 5);
}
