use locktick::lifecycle::{AcquireError, Begun, LockGuard};
use locktick::location::Location;
use locktick::lock::{LockInfo, TrackError};
use locktick::parking_lot_sync::{
    Mutex, NativeMutexGuard, NativeReadGuard, NativeWriteGuard, RwLock,
};
use locktick::tracker::{clear_lock_infos, lock_snapshots, Tracker};

/// Carries a blocking acquisition on from its first step: a queued one
/// blocks in `native` until the lock is free.
fn finish<G>(
    begun: Begun<G, ()>,
    native: impl FnOnce() -> G,
    tracker: &Tracker,
) -> Result<LockGuard<G>, TrackError> {
    match begun {
        Begun::Acquired(guard) => Ok(guard),
        Begun::Waiting(wait) => wait.finish(native(), tracker),
        Begun::Failed(AcquireError::Tracking(error)) => Err(error),
        Begun::Failed(AcquireError::Native(())) => unreachable!(),
    }
}

fn blocking_lock<'a, T>(
    mutex: &'a Mutex<'_, T>,
    tracker: &Tracker,
    site: Location,
) -> Result<LockGuard<NativeMutexGuard<'a, T>>, TrackError> {
    finish(mutex.lock(site), || NativeMutexGuard { inner: mutex.native().inner.lock() }, tracker)
}

fn blocking_read<'a, T>(
    lock: &'a RwLock<'_, T>,
    tracker: &Tracker,
    site: Location,
) -> Result<LockGuard<NativeReadGuard<'a, T>>, TrackError> {
    finish(lock.read(site), || NativeReadGuard { inner: lock.native().inner.read() }, tracker)
}

fn blocking_write<'a, T>(
    lock: &'a RwLock<'_, T>,
    tracker: &Tracker,
    site: Location,
) -> Result<LockGuard<NativeWriteGuard<'a, T>>, TrackError> {
    finish(lock.write(site), || NativeWriteGuard { inner: lock.native().inner.write() }, tracker)
}

#[allow(unused)]
pub struct Object;

fn site(line: u32) -> Location {
    Location::new("tests/parking_lot_locks.rs".to_string(), line, 9)
}

fn check_locks(tracker: &Tracker, lock_count: usize, guard_count: usize, active_guards: usize) {
    let locks = lock_snapshots(tracker);
    assert_eq!(lock_count, locks.len());
    let guards = locks.iter().map(|l| l.known_guards.len()).sum::<usize>();
    assert_eq!(guard_count, guards);
    let active = locks
        .iter()
        .flat_map(|l| l.known_guards.iter())
        .map(|g| g.num_active_uses())
        .sum::<usize>();
    assert_eq!(active_guards, active);
}

fn find_lock(locks: &[LockInfo], location: &Location) -> LockInfo {
    locks.iter().find(|l| l.location == *location).unwrap().clone()
}

fn check_guard(
    tracker: &Tracker,
    lock_location: &Location,
    guard_location: &Location,
    line: u32,
    uses: u64,
    active: usize,
) {
    assert_eq!(guard_location.line, line);
    let locks = lock_snapshots(tracker);
    let lock = find_lock(&locks, lock_location);
    let guard = lock.guard(guard_location).unwrap();
    assert_eq!(uses, guard.num_uses);
    assert_eq!(active, guard.num_active_uses());
}

#[test]
fn parking_lot_mutex() {
    let tracker = Tracker::new();
    clear_lock_infos(&tracker);

    let lock1 = Mutex::new(Object, &tracker, site(10));
    check_locks(&tracker, 1, 0, 0);

    let lock2 = Mutex::new(Object, &tracker, site(13));
    check_locks(&tracker, 2, 0, 0);

    let guard1 = blocking_lock(&lock1, &tracker, site(16)).unwrap();
    check_guard(&tracker, &guard1.lock_location, &guard1.guard_location, 16, 1, 1);
    check_locks(&tracker, 2, 1, 1);

    let guard2 = blocking_lock(&lock2, &tracker, site(20)).unwrap();
    check_guard(&tracker, &guard2.lock_location, &guard2.guard_location, 20, 1, 1);
    check_locks(&tracker, 2, 2, 2);
}

#[test]
fn parking_lot_rwlock() {
    let tracker = Tracker::new();
    clear_lock_infos(&tracker);

    let lock1 = RwLock::new(Object, &tracker, site(30));
    check_locks(&tracker, 1, 0, 0);

    let read1 = blocking_read(&lock1, &tracker, site(33)).unwrap();
    check_guard(&tracker, &read1.lock_location, &read1.guard_location, 33, 1, 1);

    let read2 = blocking_read(&lock1, &tracker, site(36)).unwrap();
    check_guard(&tracker, &read2.lock_location, &read2.guard_location, 36, 1, 1);

    read1.release(&tracker).unwrap();
    check_locks(&tracker, 1, 2, 1);

    read2.release(&tracker).unwrap();
    check_locks(&tracker, 1, 2, 0);

    let write = blocking_write(&lock1, &tracker, site(45)).unwrap();
    check_guard(&tracker, &write.lock_location, &write.guard_location, 45, 1, 1);

    write.release(&tracker).unwrap();
    check_locks(&tracker, 1, 3, 0);

    let _lock2 = RwLock::new(Object, &tracker, site(51));
    check_locks(&tracker, 2, 3, 0);
}

#[test]
fn parking_lot_try_lock_reports_a_held_mutex() {
    let tracker = Tracker::new();
    let lock = Mutex::new(5u32, &tracker, site(60));
    let mut held = lock.try_lock(site(61)).unwrap().unwrap();
    assert_eq!(*held, 5);
    *held = 6;
    assert!(lock.try_lock(site(63)).unwrap().is_none());
    check_locks(&tracker, 1, 1, 1);
    held.release(&tracker).unwrap();
    let again = lock.try_lock(site(63)).unwrap().unwrap();
    assert_eq!(*again, 6);
    check_guard(&tracker, &again.lock_location, &again.guard_location, 63, 1, 1);
    check_locks(&tracker, 1, 2, 1);
}

#[test]
fn parking_lot_try_read_and_try_write_see_each_other() {
    let tracker = Tracker::new();
    let lock = RwLock::new(7u32, &tracker, site(80));
    let reader = lock.try_read(site(81)).unwrap().unwrap();
    assert_eq!(*reader, 7);
    assert!(lock.try_write(site(82)).unwrap().is_none());
    let second = lock.try_read(site(83)).unwrap().unwrap();
    check_locks(&tracker, 1, 2, 2);
    reader.release(&tracker).unwrap();
    second.release(&tracker).unwrap();
    let mut writer = lock.try_write(site(82)).unwrap().unwrap();
    *writer += 1;
    assert_eq!(*writer, 8);
    assert!(lock.try_read(site(81)).unwrap().is_none());
    check_locks(&tracker, 1, 3, 1);
    writer.release(&tracker).unwrap();
    check_locks(&tracker, 1, 3, 0);
    assert_eq!(lock.into_inner(), 8);
}

#[test]
fn parking_lot_lock_after_clear_is_unknown() {
    let tracker = Tracker::new();
    let lock = Mutex::new(Object, &tracker, site(90));
    clear_lock_infos(&tracker);
    assert_eq!(blocking_lock(&lock, &tracker, site(92)).err(), Some(TrackError::UnknownLock));
    assert_eq!(lock.try_lock(site(92)).err(), Some(TrackError::UnknownLock));
    check_locks(&tracker, 0, 0, 0);
}
