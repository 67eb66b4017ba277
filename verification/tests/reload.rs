use sumi::surface::resize_applies;
use sumi::reload::{reload_due, RELOAD_DEBOUNCE_NANOS};

#[test]
fn reload_needs_a_change() {
    assert!(!reload_due(false, 10_000_000_000));
}

#[test]
fn reload_waits_for_debounce_window() {
    assert_eq!(RELOAD_DEBOUNCE_NANOS, 100_000_000);
    assert!(!reload_due(true, 99_999_999));
    assert!(reload_due(true, 100_000_000));
    assert!(reload_due(true, 1_000_000_000));
}

#[test]
fn zero_sized_resizes_are_ignored() {
    assert!(resize_applies(1, 1));
    assert!(resize_applies(1920, 1080));
    assert!(!resize_applies(0, 1080));
    assert!(!resize_applies(1920, 0));
    assert!(!resize_applies(0, 0));
}
