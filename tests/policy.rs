use retry::policy::{Policy, Schedule};

#[test]
fn fixed_repeat_stops_after_count() {
    let mut s = Schedule::new(Policy::FixedRepeat(3));
    assert!(!s.record(true));
    assert!(!s.record(false));
    assert!(s.record(true));
}

#[test]
fn retry_budget_stops_on_first_success() {
    let mut s = Schedule::new(Policy::RetryUntilSuccess(3));
    assert!(!s.record(true));
    assert!(s.record(false));
}

#[test]
fn retry_budget_stops_when_used_up() {
    let mut s = Schedule::new(Policy::RetryUntilSuccess(2));
    assert!(!s.record(true));
    assert!(!s.record(true));
    assert!(s.record(true));
}

#[test]
fn zero_budget_allows_one_attempt() {
    let mut s = Schedule::new(Policy::RetryUntilSuccess(0));
    assert!(s.record(true));
}

#[test]
fn largest_budget_continues_after_failure() {
    let mut s = Schedule::new(Policy::RetryUntilSuccess(usize::MAX));
    assert!(!s.record(true));
    assert!(!s.record(true));
    assert!(s.record(false));
}
