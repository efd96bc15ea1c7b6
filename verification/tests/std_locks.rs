use locktick::lifecycle::{AcquireError, Begun, LockGuard};
use locktick::location::Location;
use locktick::lock::LockInfo;
use locktick::std_sync::{Mutex, RwLock};
use locktick::tracker::{clear_lock_infos, lock_snapshots, Tracker};
use std::sync::{MutexGuard, PoisonError, RwLockReadGuard, RwLockWriteGuard};

type Failure<G> = AcquireError<PoisonError<G>>;

/// Carries a blocking acquisition on from its first step: a queued one
/// blocks in `native` until the lock is free.
fn finish<G>(
    begun: Begun<G, PoisonError<G>>,
    native: impl FnOnce() -> Result<G, PoisonError<G>>,
    tracker: &Tracker,
) -> Result<LockGuard<G>, Failure<G>> {
    match begun {
        Begun::Acquired(guard) => Ok(guard),
        Begun::Waiting(wait) => wait.settle(native(), tracker),
        Begun::Failed(failure) => Err(failure),
    }
}

fn blocking_lock<'a, T>(
    mutex: &'a Mutex<'_, T>,
    tracker: &Tracker,
    site: Location,
) -> Result<LockGuard<MutexGuard<'a, T>>, Failure<MutexGuard<'a, T>>> {
    finish(mutex.lock(site), || mutex.native().lock(), tracker)
}

fn blocking_read<'a, T>(
    lock: &'a RwLock<'_, T>,
    tracker: &Tracker,
    site: Location,
) -> Result<LockGuard<RwLockReadGuard<'a, T>>, Failure<RwLockReadGuard<'a, T>>> {
    finish(lock.read(site), || lock.native().read(), tracker)
}

fn blocking_write<'a, T>(
    lock: &'a RwLock<'_, T>,
    tracker: &Tracker,
    site: Location,
) -> Result<LockGuard<RwLockWriteGuard<'a, T>>, Failure<RwLockWriteGuard<'a, T>>> {
    finish(lock.write(site), || lock.native().write(), tracker)
}

#[allow(unused)]
pub struct Object;

fn site(line: u32) -> Location {
    Location::new("tests/std_locks.rs".to_string(), line, 9)
}

fn check_locks(tracker: &Tracker, lock_count: usize, guard_count: usize, active_guards: usize) {
    let locks = lock_snapshots(tracker);
    assert_eq!(lock_count, locks.len());
    let guards = locks.iter().map(|l| l.known_guards.len()).sum::<usize>();
    assert_eq!(guard_count, guards);
    let active = locks
        .iter()
        .flat_map(|l| l.known_guards.iter())
        .map(|g| g.num_active_uses())
        .sum::<usize>();
    assert_eq!(active_guards, active);
}

fn find_lock(locks: &[LockInfo], location: &Location) -> LockInfo {
    locks.iter().find(|l| l.location == *location).unwrap().clone()
}

fn check_guard(
    tracker: &Tracker,
    lock_location: &Location,
    guard_location: &Location,
    line: u32,
    uses: u64,
    active: usize,
) {
    assert_eq!(guard_location.line, line);
    let locks = lock_snapshots(tracker);
    let lock = find_lock(&locks, lock_location);
    let guard = lock.guard(guard_location).unwrap();
    assert_eq!(uses, guard.num_uses);
    assert_eq!(active, guard.num_active_uses());
}

#[test]
fn std_mutex() {
    let tracker = Tracker::new();
    clear_lock_infos(&tracker);

    let lock1 = Mutex::new(Object, &tracker, site(10));
    check_locks(&tracker, 1, 0, 0);

    let lock2 = Mutex::new(Object, &tracker, site(13));
    check_locks(&tracker, 2, 0, 0);

    let guard1 = blocking_lock(&lock1, &tracker, site(16)).ok().unwrap();
    check_guard(&tracker, &guard1.lock_location, &guard1.guard_location, 16, 1, 1);
    check_locks(&tracker, 2, 1, 1);

    let guard2 = blocking_lock(&lock2, &tracker, site(20)).ok().unwrap();
    check_guard(&tracker, &guard2.lock_location, &guard2.guard_location, 20, 1, 1);
    check_locks(&tracker, 2, 2, 2);
}

#[test]
fn std_rwlock() {
    let tracker = Tracker::new();
    clear_lock_infos(&tracker);

    let lock1 = RwLock::new(Object, &tracker, site(30));
    check_locks(&tracker, 1, 0, 0);

    let read1 = blocking_read(&lock1, &tracker, site(33)).ok().unwrap();
    check_guard(&tracker, &read1.lock_location, &read1.guard_location, 33, 1, 1);

    let read2 = blocking_read(&lock1, &tracker, site(36)).ok().unwrap();
    check_guard(&tracker, &read2.lock_location, &read2.guard_location, 36, 1, 1);

    read1.release(&tracker).unwrap();
    check_locks(&tracker, 1, 2, 1);

    read2.release(&tracker).unwrap();
    check_locks(&tracker, 1, 2, 0);

    let write = blocking_write(&lock1, &tracker, site(45)).ok().unwrap();
    check_guard(&tracker, &write.lock_location, &write.guard_location, 45, 1, 1);

    write.release(&tracker).unwrap();
    check_locks(&tracker, 1, 3, 0);

    let _lock2 = RwLock::new(Object, &tracker, site(51));
    check_locks(&tracker, 2, 3, 0);
}

#[test]
fn std_try_lock_reports_a_held_mutex() {
    let tracker = Tracker::new();
    let lock = Mutex::new(5u32, &tracker, site(60));
    let held = lock.try_lock(site(61)).ok().unwrap();
    assert_eq!(**held.get(), 5);
    match lock.try_lock(site(63)) {
        Err(locktick::lifecycle::TryAcquireError::WouldBlock) => {}
        _ => panic!("a held mutex must report that it would block"),
    }
    // The failed attempt left no trace: one call site, one use.
    check_locks(&tracker, 1, 1, 1);
    held.release(&tracker).unwrap();
    let again = lock.try_lock(site(63)).ok().unwrap();
    check_guard(&tracker, &again.lock_location, &again.guard_location, 63, 1, 1);
    check_locks(&tracker, 1, 2, 1);
}

#[test]
fn std_guard_gives_write_access() {
    let tracker = Tracker::new();
    let lock = Mutex::new(1u32, &tracker, site(70));
    let mut guard = blocking_lock(&lock, &tracker, site(71)).ok().unwrap();
    *guard += 1;
    **guard.get_mut() += 40;
    guard.release(&tracker).unwrap();
    let guard = blocking_lock(&lock, &tracker, site(71)).ok().unwrap();
    assert_eq!(*guard, 42);
    assert_eq!(**guard.get(), 42);
    check_guard(&tracker, &guard.lock_location, &guard.guard_location, 71, 2, 1);
}

#[test]
fn std_try_read_and_try_write_see_each_other() {
    let tracker = Tracker::new();
    let lock = RwLock::new(7u32, &tracker, site(80));
    let reader = lock.try_read(site(81)).ok().unwrap();
    assert!(matches!(
        lock.try_write(site(82)),
        Err(locktick::lifecycle::TryAcquireError::WouldBlock)
    ));
    let second = lock.try_read(site(83)).ok().unwrap();
    check_locks(&tracker, 1, 2, 2);
    reader.release(&tracker).unwrap();
    second.release(&tracker).unwrap();
    let writer = lock.try_write(site(82)).ok().unwrap();
    assert!(matches!(
        lock.try_read(site(81)),
        Err(locktick::lifecycle::TryAcquireError::WouldBlock)
    ));
    check_locks(&tracker, 1, 3, 1);
    writer.release(&tracker).unwrap();
    check_locks(&tracker, 1, 3, 0);
}

#[test]
fn std_lock_after_clear_is_unknown() {
    let tracker = Tracker::new();
    let lock = Mutex::new(Object, &tracker, site(90));
    clear_lock_infos(&tracker);
    match blocking_lock(&lock, &tracker, site(92)) {
        Err(locktick::lifecycle::AcquireError::Tracking(e)) => {
            assert_eq!(e, locktick::lock::TrackError::UnknownLock)
        }
        _ => panic!("a forgotten lock cannot be tracked"),
    }
    check_locks(&tracker, 0, 0, 0);
}

fn shared<T: Send + Sync>(_: &T) {}

#[test]
fn std_locks_and_the_tracker_can_be_shared_between_threads() {
    let tracker = Tracker::new();
    shared(&tracker);
    let lock = RwLock::new(0u64, &tracker, site(140));
    shared(&lock);
    let mutex = Mutex::new(0u64, &tracker, site(141));
    shared(&mutex);
    for _ in 0..100 {
        let mut guard = blocking_write(&lock, &tracker, site(146)).ok().unwrap();
        **guard.get_mut() += 1;
        guard.release(&tracker).unwrap();
        let guard = blocking_read(&lock, &tracker, site(149)).ok().unwrap();
        guard.release(&tracker).unwrap();
    }
    assert_eq!(**blocking_read(&lock, &tracker, site(149)).ok().unwrap().get(), 100);
    check_guard(&tracker, lock.location(), &site(146), 146, 100, 0);
    check_guard(&tracker, lock.location(), &site(149), 149, 101, 1);
    check_locks(&tracker, 2, 2, 1);
}

#[test]
fn std_a_held_mutex_queues_the_acquisition() {
    let tracker = Tracker::new();
    let mutex = Mutex::new(1u8, &tracker, site(200));
    let held = match mutex.lock(site(201)) {
        Begun::Acquired(guard) => guard,
        _ => panic!("a free mutex is acquired at once"),
    };
    // The mutex is held: the next acquisition is queued, not counted.
    let wait = match mutex.lock(site(205)) {
        Begun::Waiting(wait) => wait,
        _ => panic!("a held mutex queues the acquisition"),
    };
    assert_eq!(wait.guard_location, site(205));
    check_guard(&tracker, mutex.location(), &site(205), 205, 0, 0);
    let locks = lock_snapshots(&tracker);
    assert_eq!(find_lock(&locks, mutex.location()).guard(&site(205)).unwrap().num_waiting(), 1);
    // The holder lets go, and the native call that would have blocked
    // answers at once.
    held.release(&tracker).unwrap();
    let guard = wait.settle(mutex.native().lock(), &tracker).ok().unwrap();
    assert_eq!(*guard, 1);
    check_guard(&tracker, mutex.location(), &site(205), 205, 1, 1);
    let locks = lock_snapshots(&tracker);
    assert_eq!(find_lock(&locks, mutex.location()).guard(&site(205)).unwrap().num_waiting(), 0);
}
