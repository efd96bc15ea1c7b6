use locktick::guard::GuardKind;
use locktick::lifecycle::{Begun, TryAcquireError};
use locktick::location::Location;
use locktick::tokio_sync::{Mutex, RwLock};
use locktick::tracker::{lock_snapshots, Tracker};

fn site(line: u32) -> Location {
    Location::new("tests/tokio_locks.rs".to_string(), line, 9)
}

fn counts(tracker: &Tracker, lock: &Location, site: &Location) -> (u64, usize, usize) {
    let locks = lock_snapshots(tracker);
    let lock = locks.iter().find(|l| l.location == *lock).unwrap();
    let guard = lock.guard(site).unwrap();
    (guard.num_uses, guard.num_active_uses(), guard.num_waiting())
}

#[test]
fn tokio_try_lock_is_tracked() {
    let tracker = Tracker::new();
    let lock1 = Mutex::new(1u32, &tracker, site(10));
    let lock2 = Mutex::new(2u32, &tracker, site(11));
    assert_eq!(lock_snapshots(&tracker).len(), 2);

    let mut guard1 = lock1.try_lock(site(14)).ok().unwrap();
    assert_eq!(guard1.guard_location.line, 14);
    assert_eq!(counts(&tracker, lock1.location(), &site(14)), (1, 1, 0));
    **guard1.get_mut() += 10;

    let guard2 = lock2.try_lock(site(18)).ok().unwrap();
    assert_eq!(**guard2.get(), 2);
    assert_eq!(counts(&tracker, lock2.location(), &site(18)), (1, 1, 0));

    assert!(matches!(lock1.try_lock(site(21)), Err(TryAcquireError::WouldBlock)));
    assert_eq!(lock_snapshots(&tracker)[0].known_guards.len(), 1);

    guard1.release(&tracker).unwrap();
    let again = lock1.try_lock(site(21)).ok().unwrap();
    assert_eq!(**again.get(), 11);
    assert_eq!(counts(&tracker, lock1.location(), &site(14)), (1, 0, 0));
    assert_eq!(counts(&tracker, lock1.location(), &site(21)), (1, 1, 0));
}

#[test]
fn tokio_an_abandoned_wait_leaves_no_trace() {
    let tracker = Tracker::new();
    let lock = Mutex::new(1u32, &tracker, site(30));
    let held = lock.try_lock(site(31)).ok().unwrap();
    let wait = lock.begin_wait(site(32), tracker.now()).unwrap();
    assert_eq!(wait.kind, GuardKind::Lock);
    assert_eq!(counts(&tracker, lock.location(), &site(32)), (0, 0, 1));
    wait.cancel(&tracker).unwrap();
    assert_eq!(counts(&tracker, lock.location(), &site(32)), (0, 0, 0));
    held.release(&tracker).unwrap();
    // The native mutex is free again, and a wait can be finished with its guard.
    let wait = lock.begin_wait(site(32), tracker.now()).unwrap();
    let native = lock.native().inner.try_lock().unwrap();
    let guard = wait.finish(native, &tracker).unwrap();
    assert_eq!(**guard.get(), 1);
    assert_eq!(counts(&tracker, lock.location(), &site(32)), (1, 1, 0));
}

#[test]
fn tokio_rwlock_hands_its_value_back() {
    let tracker = Tracker::new();
    let lock = RwLock::new(String::from("inside"), &tracker, site(50));
    assert_eq!(lock_snapshots(&tracker).len(), 1);
    assert_eq!(*lock.location(), site(50));

    let wait = lock.begin_wait(GuardKind::Read, site(53), tracker.now()).unwrap();
    let native = lock.native().inner.try_read().unwrap();
    let guard = wait.finish(native, &tracker).unwrap();
    assert_eq!(guard.get().as_str(), "inside");
    assert_eq!(counts(&tracker, lock.location(), &site(53)), (1, 1, 0));
    guard.release(&tracker).unwrap();
    assert_eq!(counts(&tracker, lock.location(), &site(53)), (1, 0, 0));
    assert_eq!(lock.into_inner(), "inside");
}

#[test]
fn tokio_try_read_and_try_write_see_each_other() {
    let tracker = Tracker::new();
    let lock = RwLock::new(7u32, &tracker, site(80));
    let reader = lock.try_read(site(81)).ok().unwrap();
    assert_eq!(**reader.get(), 7);
    assert!(matches!(lock.try_write(site(82)), Err(TryAcquireError::WouldBlock)));
    let second = lock.try_read(site(83)).ok().unwrap();
    assert_eq!(counts(&tracker, lock.location(), &site(81)), (1, 1, 0));
    assert_eq!(counts(&tracker, lock.location(), &site(83)), (1, 1, 0));
    reader.release(&tracker).unwrap();
    second.release(&tracker).unwrap();
    let mut writer = lock.try_write(site(82)).ok().unwrap();
    **writer.get_mut() += 1;
    assert!(matches!(lock.try_read(site(81)), Err(TryAcquireError::WouldBlock)));
    assert_eq!(counts(&tracker, lock.location(), &site(82)), (1, 1, 0));
    writer.release(&tracker).unwrap();
    assert_eq!(lock.into_inner(), 8);
}

#[test]
fn tokio_a_held_mutex_queues_the_acquisition() {
    let tracker = Tracker::new();
    let mutex = Mutex::new(1u8, &tracker, site(200));
    let held = match mutex.lock(site(201)) {
        Begun::Acquired(guard) => guard,
        _ => panic!("a free mutex is acquired at once"),
    };
    let wait = match mutex.lock(site(205)) {
        Begun::Waiting(wait) => wait,
        _ => panic!("a held mutex queues the acquisition"),
    };
    assert_eq!(counts(&tracker, mutex.location(), &site(205)), (0, 0, 1));
    // The task is dropped before its guard arrives.
    wait.cancel(&tracker).unwrap();
    assert_eq!(counts(&tracker, mutex.location(), &site(205)), (0, 0, 0));
    held.release(&tracker).unwrap();
    assert_eq!(counts(&tracker, mutex.location(), &site(201)), (1, 0, 0));
}
