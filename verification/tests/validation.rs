use anchor_qbft::qbft::ValidationTracker;
use anchor_qbft::qbft_types::Round;

#[test]
fn identifiers_count_up_from_zero() {
    let mut tracker = ValidationTracker::new();
    assert_eq!(tracker.insert(Round(0), vec![1]), 0);
    assert_eq!(tracker.insert(Round(0), vec![2]), 1);
    assert_eq!(tracker.insert(Round(5), vec![3]), 2);
}

#[test]
fn take_returns_round_and_value_once() {
    let mut tracker = ValidationTracker::new();
    let first = tracker.insert(Round(3), vec![7, 8]);
    let second = tracker.insert(Round(4), vec![9]);
    assert_eq!(tracker.take(second), Some((Round(4), vec![9])));
    assert_eq!(tracker.take(second), None);
    assert_eq!(tracker.take(first), Some((Round(3), vec![7, 8])));
    assert_eq!(tracker.take(first), None);
}

#[test]
fn unknown_identifier_is_not_found() {
    let mut tracker = ValidationTracker::new();
    assert_eq!(tracker.take(0), None);
    tracker.insert(Round(0), vec![]);
    assert_eq!(tracker.take(1), None);
    assert_eq!(tracker.take(usize::MAX), None);
    assert_eq!(tracker.take(0), Some((Round(0), vec![])));
}

#[test]
fn identifiers_are_not_reused_after_take_or_clear() {
    let mut tracker = ValidationTracker::new();
    assert_eq!(tracker.insert(Round(0), vec![1]), 0);
    assert_eq!(tracker.take(0), Some((Round(0), vec![1])));
    assert_eq!(tracker.insert(Round(0), vec![1]), 1);
    tracker.clear();
    assert_eq!(tracker.take(1), None);
    assert_eq!(tracker.insert(Round(1), vec![2]), 2);
    assert_eq!(tracker.take(2), Some((Round(1), vec![2])));
}

#[test]
fn fresh_tracker_is_not_exhausted() {
    let mut tracker = ValidationTracker::new();
    assert!(!tracker.exhausted());
    tracker.insert(Round(0), vec![]);
    assert!(!tracker.exhausted());
}
