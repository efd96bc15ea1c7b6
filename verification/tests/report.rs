use locktick::guard::{GuardInfo, GuardKind};
use locktick::location::Location;
use locktick::lock::{LockInfo, LockKind};
use locktick::registry::Registry;
use locktick::report::push_decimal;

fn decimal(n: u64) -> String {
    let mut text = String::from("n=");
    push_decimal(&mut text, n);
    text
}

#[test]
fn numbers_are_written_in_decimal() {
    assert_eq!(decimal(0), "n=0");
    assert_eq!(decimal(7), "n=7");
    assert_eq!(decimal(10), "n=10");
    assert_eq!(decimal(1234567890), "n=1234567890");
    assert_eq!(decimal(u64::MAX), "n=18446744073709551615");
}

#[test]
fn a_location_is_rendered_as_path_line_and_column() {
    assert_eq!(Location::new("src/main.rs".to_string(), 12, 5).render(), "src/main.rs@12:5");
    assert_eq!(Location::new(String::new(), 0, 0).render(), "@0:0");
    assert_eq!(
        Location::new("a b.rs".to_string(), u32::MAX, 100).render(),
        "a b.rs@4294967295:100"
    );
}

#[test]
fn a_fresh_guard_is_rendered_with_zeros() {
    let guard = GuardInfo::new(GuardKind::Write, Location::new("src/a.rs".to_string(), 3, 9));
    assert_eq!(
        guard.render(),
        "src/a.rs@3:9 (Write): curr users: 0; waiting: 0; calls: 0; \
         duration: 0ns avg, 0ns max; wait: 0ns avg, 0ns max"
    );
}

#[test]
fn a_used_guard_is_rendered_with_its_statistics() {
    let mut guard = GuardInfo::new(GuardKind::Read, Location::new("src/a.rs".to_string(), 3, 9));
    guard.note_acquired(0, 1_500, 0);
    guard.note_released(0, 2_000_000_000);
    guard.note_acquired(1, 500, 0);
    guard.note_released(1, 1_000_000_000);
    guard.note_acquired(2, 250, 0);
    guard.note_queued(3, 0);
    guard.note_queued(4, 0);
    assert_eq!(
        guard.render(),
        "src/a.rs@3:9 (Read): curr users: 1; waiting: 2; calls: 3; \
         duration: 1.5s avg, 2s max; wait: 750ns avg, 1.5\u{b5}s max"
    );
}

#[test]
fn a_lock_is_rendered_with_a_line_for_each_guard() {
    let lock = LockInfo::new(LockKind::Mutex, Location::new("src/a.rs".to_string(), 1, 2));
    assert_eq!(lock.render(), "src/a.rs@1:2 (Mutex):");

    let mut registry = Registry::new();
    let at = registry.register(LockKind::RwLock, Location::new("src/a.rs".to_string(), 1, 2));
    let first = Location::new("src/b.rs".to_string(), 10, 20);
    let second = Location::new("src/c.rs".to_string(), 30, 40);
    let id = registry.checked_acquire(&at, GuardKind::Read, &first, 1_000_000, 0).unwrap();
    registry.checked_release(&at, &first, id, 3_000).unwrap();
    registry.checked_acquire(&at, GuardKind::Lock, &second, 0, 0).unwrap();
    assert_eq!(
        registry.lock(&at).unwrap().render(),
        "src/a.rs@1:2 (RwLock):\n\
         - src/b.rs@10:20 (Read): curr users: 0; waiting: 0; calls: 1; \
         duration: 3\u{b5}s avg, 3\u{b5}s max; wait: 1ms avg, 1ms max\n\
         - src/c.rs@30:40 (Lock): curr users: 1; waiting: 0; calls: 1; \
         duration: 0ns avg, 0ns max; wait: 0ns avg, 0ns max"
    );
}
