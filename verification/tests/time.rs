//! Spans and points of time.

use android_emulator::time::{Duration, SystemTime};

#[test]
fn spans_are_counted_in_nanoseconds() {
    let d = Duration::new(3, 5);
    assert_eq!((d.as_secs(), d.subsec_nanos()), (3, 5));
    let d = Duration::from_millis(1500);
    assert_eq!((d.as_secs(), d.subsec_nanos()), (1, 500_000_000));
    let longest = Duration::new(u64::MAX, 999_999_999);
    assert_eq!((longest.as_secs(), longest.subsec_nanos()), (u64::MAX, 999_999_999));
    assert!(Duration::from_secs(0).is_zero());
    assert!(!Duration::from_millis(1).is_zero());
}

#[test]
fn spans_are_compared_and_subtracted() {
    let one = Duration::from_secs(1);
    let two = Duration::from_secs(2);
    assert_eq!(two.saturating_sub(one).as_secs(), 1);
    assert!(one.saturating_sub(two).is_zero());
    assert_eq!(one.min(two).as_secs(), 1);
    assert_eq!(two.min(one).as_secs(), 1);
    assert!(two.exceeds(&one));
    assert!(!one.exceeds(&one));
}

#[test]
fn points_lie_on_both_sides_of_the_epoch() {
    let after = SystemTime::after_epoch(Duration::from_secs(7));
    let before = SystemTime::before_epoch(Duration::from_secs(7));
    assert_eq!(after.since_epoch().unwrap().as_secs(), 7);
    assert!(before.since_epoch().is_none());
    assert!(after.later_than(&before));
    assert!(!after.later_than(&after));
    let epoch = before.checked_add(Duration::from_secs(7)).unwrap();
    assert!(epoch.since_epoch().unwrap().is_zero());
}

#[test]
fn points_out_of_range_are_refused() {
    let last = SystemTime::after_epoch(Duration::new(u64::MAX, 999_999_999));
    assert!(last.checked_add(Duration::from_secs(0)).is_some());
    assert!(last.checked_add(Duration::new(0, 1)).is_none());
}

#[test]
fn a_reading_of_the_clock_is_a_point() {
    let after = SystemTime::at_reading(true, 7, 5).since_epoch().unwrap();
    assert_eq!((after.as_secs(), after.subsec_nanos()), (7, 5));
    let before = SystemTime::at_reading(false, 7, 5);
    assert!(before.since_epoch().is_none());
    let left = before.checked_add(Duration::new(8, 0)).unwrap().since_epoch().unwrap();
    assert_eq!((left.as_secs(), left.subsec_nanos()), (0, 999_999_995));
    assert!(SystemTime::at_reading(false, 0, 0).since_epoch().unwrap().is_zero());
}

#[test]
fn the_clock_is_that_of_std() {
    let before = std::time::SystemTime::now()
        .duration_since(std::time::UNIX_EPOCH)
        .unwrap()
        .as_nanos();
    let now = SystemTime::now().since_epoch().unwrap();
    let after = std::time::SystemTime::now()
        .duration_since(std::time::UNIX_EPOCH)
        .unwrap()
        .as_nanos();
    let now = now.as_secs() as u128 * 1_000_000_000 + now.subsec_nanos() as u128;
    assert!(before <= now && now <= after);
}
