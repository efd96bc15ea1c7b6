use locktick::guard::{GuardInfo, GuardKind};
use locktick::location::Location;
use locktick::stats::{MovingAverage, WINDOW};

#[test]
fn the_window_holds_fifty_samples() {
    assert_eq!(WINDOW, 50);
}

#[test]
fn an_empty_average_is_zero() {
    assert_eq!(MovingAverage::new().get_average(), 0);
}

#[test]
fn the_average_of_few_samples_is_their_mean() {
    let mut average = MovingAverage::new();
    average.add_sample(10);
    assert_eq!(average.get_average(), 10);
    average.add_sample(20);
    assert_eq!(average.get_average(), 15);
    average.add_sample(31);
    // 61 / 3, rounded down.
    assert_eq!(average.get_average(), 20);
}

#[test]
fn the_average_of_a_full_window_is_its_mean() {
    let mut average = MovingAverage::new();
    for sample in 1..=50u64 {
        average.add_sample(sample);
    }
    // (1 + ... + 50) / 50 = 1275 / 50, rounded down.
    assert_eq!(average.get_average(), 25);
}

#[test]
fn old_samples_leave_a_full_window() {
    let mut average = MovingAverage::new();
    for sample in 1..=60u64 {
        average.add_sample(sample);
    }
    // The window holds 11..=60: 1775 / 50, rounded down.
    assert_eq!(average.get_average(), 35);
    for _ in 0..50 {
        average.add_sample(1000);
    }
    assert_eq!(average.get_average(), 1000);
}

#[test]
fn the_largest_samples_do_not_overflow() {
    let mut average = MovingAverage::new();
    for _ in 0..120 {
        average.add_sample(u64::MAX);
    }
    assert_eq!(average.get_average(), u64::MAX);
    average.add_sample(0);
    assert_eq!(average.get_average(), u64::MAX - u64::MAX / 50 - 1);
}

#[test]
fn a_copy_of_an_average_is_independent() {
    let mut average = MovingAverage::new();
    average.add_sample(4);
    let copy = average.clone();
    average.add_sample(8);
    assert_eq!(copy.get_average(), 4);
    assert_eq!(average.get_average(), 6);
}

#[test]
fn a_guard_keeps_mean_and_maximum_of_what_it_is_fed() {
    let site = Location::new("src/a.rs".to_string(), 1, 1);
    let mut guard = GuardInfo::new(GuardKind::Read, site);
    // Fewer samples than the window holds.
    let mut now = 0u64;
    for (id, wait) in [30u64, 10, 50].into_iter().enumerate() {
        guard.note_acquired(id as u64, wait, now);
        now += 100;
        assert_eq!(guard.note_released(id as u64, now), Some(100));
    }
    assert_eq!((guard.avg_wait_time(), guard.max_wait_time), (30, 50));
    assert_eq!((guard.avg_duration(), guard.max_duration), (100, 100));
    // As many as the window holds.
    for id in 3..50u64 {
        guard.note_acquired(id, 50, now);
    }
    assert_eq!(guard.num_uses, 50);
    // (30 + 10 + 50 + 47 * 50) / 50 = 2440 / 50, rounded down.
    assert_eq!((guard.avg_wait_time(), guard.max_wait_time), (48, 50));
    // More: the three oldest waits leave, the maximum stays the largest of all.
    guard.note_acquired(50, 1000, now);
    guard.note_acquired(51, 0, now);
    guard.note_acquired(52, 0, now);
    // (47 * 50 + 1000) / 50 = 3350 / 50.
    assert_eq!((guard.avg_wait_time(), guard.max_wait_time), (67, 1000));
    for id in 53..103u64 {
        guard.note_acquired(id, 2, now);
    }
    assert_eq!((guard.avg_wait_time(), guard.max_wait_time), (2, 1000));
    assert_eq!(guard.num_uses, 103);
    assert_eq!(guard.num_active_uses(), 100);
}

#[test]
fn a_guard_that_is_not_held_cannot_be_released() {
    let site = Location::new("src/a.rs".to_string(), 1, 1);
    let mut guard = GuardInfo::new(GuardKind::Lock, site);
    assert_eq!(guard.note_released(3, 10), None);
    assert_eq!((guard.avg_duration(), guard.max_duration), (0, 0));
    guard.note_queued(3, 10);
    assert_eq!(guard.num_waiting(), 1);
    assert!(guard.note_dequeued(3));
    assert!(!guard.note_dequeued(3));
    assert_eq!(guard.num_waiting(), 0);
    assert_eq!(guard.num_uses, 0);
}
