use locktick::clock::{elapsed_between, saturate, Clock};
use locktick::guard::GuardKind;
use locktick::lifecycle::{
    settle_attempt, AcquireError, Attempt, LockGuard, TryAcquireError, WaitGuard,
};
use locktick::location::Location;
use locktick::lock::{LockKind, TrackError};
use locktick::tracker::{lock_snapshots, Tracker};

fn at(line: u32) -> Location {
    Location::new("tests/lifecycle.rs".to_string(), line, 1)
}

fn counts(tracker: &Tracker, lock: &Location, site: &Location) -> (u64, usize, usize) {
    let locks = lock_snapshots(tracker);
    let lock = locks.iter().find(|l| l.location == *lock).unwrap();
    let guard = lock.guard(site).unwrap();
    (guard.num_uses, guard.num_active_uses(), guard.num_waiting())
}

#[test]
fn the_time_between_two_readings_never_goes_negative() {
    assert_eq!(elapsed_between(10, 25), 15);
    assert_eq!(elapsed_between(25, 25), 0);
    assert_eq!(elapsed_between(25, 10), 0);
    assert_eq!(elapsed_between(0, u64::MAX), u64::MAX);
}

#[test]
fn the_clock_does_not_run_backwards() {
    let clock = Clock::new();
    let first = clock.now();
    let second = clock.now();
    assert!(first <= second);
    // Less than a minute since the clock was made.
    assert!(second < 60_000_000_000);
}

#[test]
fn registration_through_the_tracker_is_idempotent() {
    let tracker = Tracker::new();
    let first = tracker.register(LockKind::Mutex, at(1));
    assert_eq!(lock_snapshots(&tracker).len(), 1);
    let second = tracker.register(LockKind::Mutex, at(1));
    assert_eq!(lock_snapshots(&tracker).len(), 1);
    assert_eq!(first, second);
    tracker.register(LockKind::Mutex, at(2));
    assert_eq!(lock_snapshots(&tracker).len(), 2);
    tracker.clear_lock_infos();
    assert_eq!(lock_snapshots(&tracker).len(), 0);
}

#[test]
fn a_guard_is_recorded_when_made_and_when_released() {
    let tracker = Tracker::new();
    let lock = tracker.register(LockKind::Mutex, at(1));
    let guard = LockGuard::new("native", GuardKind::Lock, &lock, at(2), 5, &tracker).unwrap();
    assert_eq!(*guard.get(), "native");
    assert_eq!(guard.lock_location, lock);
    assert_eq!(guard.guard_location, at(2));
    assert_eq!(counts(&tracker, &lock, &at(2)), (1, 1, 0));
    let id = guard.id();
    let held = guard.release(&tracker).unwrap();
    assert!(held < 60_000_000_000);
    assert_eq!(counts(&tracker, &lock, &at(2)), (1, 0, 0));
    // The guard is gone: its id is not held any more.
    assert_eq!(tracker.release(&lock, &at(2), id), Err(TrackError::NotActive));
    let locks = lock_snapshots(&tracker);
    let info = locks[0].guard(&at(2)).unwrap();
    assert_eq!((info.avg_wait_time(), info.max_wait_time), (5, 5));
    assert_eq!((info.avg_duration(), info.max_duration), (held, held));
}

#[test]
fn a_guard_on_an_unknown_lock_is_refused() {
    let tracker = Tracker::new();
    let res = LockGuard::new((), GuardKind::Lock, &at(1), at(2), 0, &tracker);
    assert_eq!(res.err(), Some(TrackError::UnknownLock));
    assert!(WaitGuard::new(GuardKind::Lock, &at(1), at(2), 0, &tracker).is_err());
    assert_eq!(lock_snapshots(&tracker).len(), 0);
}

#[test]
fn a_cancelled_wait_is_not_a_use() {
    let tracker = Tracker::new();
    let lock = tracker.register(LockKind::Mutex, at(1));
    let wait = WaitGuard::new(GuardKind::Lock, &lock, at(2), tracker.now(), &tracker).unwrap();
    assert_eq!(wait.kind, GuardKind::Lock);
    assert_eq!(counts(&tracker, &lock, &at(2)), (0, 0, 1));
    assert_eq!(wait.cancel(&tracker), Ok(()));
    assert_eq!(counts(&tracker, &lock, &at(2)), (0, 0, 0));
    let locks = lock_snapshots(&tracker);
    let info = locks[0].guard(&at(2)).unwrap();
    assert_eq!((info.avg_wait_time(), info.max_wait_time), (0, 0));
    assert_eq!((info.avg_duration(), info.max_duration), (0, 0));
}

#[test]
fn a_finished_wait_keeps_its_id() {
    let tracker = Tracker::new();
    let lock = tracker.register(LockKind::RwLock, at(1));
    let wait = WaitGuard::new(GuardKind::Write, &lock, at(2), tracker.now(), &tracker).unwrap();
    let id = wait.id();
    let guard = wait.finish(17u8, &tracker).unwrap();
    assert_eq!(guard.id(), id);
    assert_eq!(*guard.get(), 17);
    assert_eq!(guard.guard_location, at(2));
    assert_eq!(counts(&tracker, &lock, &at(2)), (1, 1, 0));
    guard.release(&tracker).unwrap();
    assert_eq!(counts(&tracker, &lock, &at(2)), (1, 0, 0));
}

#[test]
fn a_wait_settles_on_what_the_native_lock_answers() {
    let tracker = Tracker::new();
    let lock = tracker.register(LockKind::Mutex, at(1));

    let wait = WaitGuard::new(GuardKind::Lock, &lock, at(2), 0, &tracker).unwrap();
    let answer: Result<u8, &str> = Ok(3);
    let guard = wait.settle(answer, &tracker).ok().unwrap();
    assert_eq!(*guard.get(), 3);
    assert_eq!(counts(&tracker, &lock, &at(2)), (1, 1, 0));

    // A failure of the native lock is handed on, and the waiting entry leaves.
    let wait = WaitGuard::new(GuardKind::Lock, &lock, at(2), 0, &tracker).unwrap();
    assert_eq!(counts(&tracker, &lock, &at(2)), (1, 1, 1));
    let answer: Result<u8, &str> = Err("poisoned");
    match wait.settle(answer, &tracker) {
        Err(AcquireError::Native(failure)) => assert_eq!(failure, "poisoned"),
        _ => panic!("the native failure must come back"),
    }
    assert_eq!(counts(&tracker, &lock, &at(2)), (1, 1, 0));
}

#[test]
fn an_attempt_settles_on_what_the_native_lock_answers() {
    let tracker = Tracker::new();
    let lock = tracker.register(LockKind::Mutex, at(1));

    let got: Attempt<u8, &str> = Attempt::Acquired(9);
    let guard =
        settle_attempt(got, GuardKind::Lock, &lock, at(2), tracker.now(), &tracker).ok().unwrap();
    assert_eq!(*guard.get(), 9);
    assert_eq!(counts(&tracker, &lock, &at(2)), (1, 1, 0));

    let busy: Attempt<u8, &str> = Attempt::WouldBlock;
    assert!(matches!(
        settle_attempt(busy, GuardKind::Lock, &lock, at(3), 0, &tracker),
        Err(TryAcquireError::WouldBlock)
    ));
    let failed: Attempt<u8, &str> = Attempt::Failed("poisoned");
    assert!(matches!(
        settle_attempt(failed, GuardKind::Lock, &lock, at(3), 0, &tracker),
        Err(TryAcquireError::Native("poisoned"))
    ));
    // Neither left a call site behind.
    assert_eq!(lock_snapshots(&tracker)[0].known_guards.len(), 1);

    let unknown: Attempt<u8, &str> = Attempt::Acquired(1);
    assert!(matches!(
        settle_attempt(unknown, GuardKind::Lock, &at(99), at(3), 0, &tracker),
        Err(TryAcquireError::Tracking(TrackError::UnknownLock))
    ));
}

#[test]
fn a_count_of_nanoseconds_is_cut_to_the_largest_u64() {
    assert_eq!(saturate(0), 0);
    assert_eq!(saturate(1_500), 1_500);
    assert_eq!(saturate(u64::MAX as u128), u64::MAX);
    assert_eq!(saturate(u64::MAX as u128 + 1), u64::MAX);
    assert_eq!(saturate(u128::MAX), u64::MAX);
}

#[test]
fn the_tracker_records_only_attempts_that_got_their_guard() {
    let tracker = Tracker::new();
    let lock = tracker.register(LockKind::Mutex, at(1));
    assert_eq!(tracker.attempted(false, &lock, GuardKind::Lock, &at(2), 7), Ok(None));
    assert!(lock_snapshots(&tracker)[0].known_guards.is_empty());
    assert_eq!(tracker.attempted(true, &lock, GuardKind::Lock, &at(2), 7), Ok(Some(0)));
    assert_eq!(counts(&tracker, &lock, &at(2)), (1, 1, 0));
    assert_eq!(tracker.attempted(false, &lock, GuardKind::Lock, &at(2), 9), Ok(None));
    assert_eq!(tracker.attempted(false, &lock, GuardKind::Lock, &at(3), 9), Ok(None));
    assert_eq!(counts(&tracker, &lock, &at(2)), (1, 1, 0));
    assert_eq!(lock_snapshots(&tracker)[0].known_guards.len(), 1);
    assert_eq!(
        tracker.attempted(true, &at(9), GuardKind::Lock, &at(2), 0),
        Err(TrackError::UnknownLock)
    );
    assert_eq!(tracker.attempted(false, &at(9), GuardKind::Lock, &at(2), 0), Ok(None));
    assert_eq!(tracker.release(&lock, &at(2), 0).map(|_| ()), Ok(()));
    assert_eq!(tracker.release(&lock, &at(2), 0), Err(TrackError::NotActive));
    assert_eq!(tracker.release(&lock, &at(3), 0), Err(TrackError::UnknownGuard));
    assert_eq!(tracker.release(&at(9), &at(2), 0), Err(TrackError::UnknownLock));
}
