use locker::park::{after_park, AfterPark, ParkOutcome, UnparkOutcome, TOKEN_HANDOFF, TOKEN_NORMAL};

#[test]
fn handed_off_lock_is_held_after_park() {
    assert!(matches!(after_park(ParkOutcome::Unparked(TOKEN_HANDOFF)), AfterPark::Acquired));
    assert!(matches!(after_park(ParkOutcome::Unparked(TOKEN_NORMAL)), AfterPark::Retry));
    assert!(matches!(after_park(ParkOutcome::Invalid), AfterPark::Retry));
    assert!(matches!(after_park(ParkOutcome::TimedOut), AfterPark::TimedOut));
}

#[test]
fn nobody_parked_outcome() {
    let r = UnparkOutcome::nobody_parked();
    assert_eq!(r.unparked_threads, 0);
    assert!(!r.have_more_threads);
    assert!(!r.be_fair);
}
