use feetech_driver::logging::{rate_limited_warn, WarnCounter, WarnCounters, EMIT_INTERVAL_MS};

#[test]
fn interval_constant() {
    assert_eq!(EMIT_INTERVAL_MS, 1000);
}

#[test]
fn first_occurrence_does_not_emit() {
    let mut counters = WarnCounters::new();
    // The first call starts a fresh window; only elapsed time governs
    // emission, so nothing is emitted yet.
    assert!(!rate_limited_warn(&mut counters, "goal_position_error", 5));
    assert_eq!(counters.entries.len(), 1);
    assert_eq!(counters.entries[0].0, "goal_position_error");
    assert_eq!(counters.entries[0].1.count, 1);
    assert_eq!(counters.entries[0].1.last_emit_ms, 5);
}

#[test]
fn burst_emits_exactly_once_per_window() {
    let mut counters = WarnCounters::new();
    // Window starts at 0.
    assert!(!rate_limited_warn(&mut counters, "status_error", 0));
    // A burst inside the window: no emissions, occurrences counted.
    assert!(!rate_limited_warn(&mut counters, "status_error", 100));
    assert!(!rate_limited_warn(&mut counters, "status_error", 500));
    assert!(!rate_limited_warn(&mut counters, "status_error", 999));
    assert_eq!(counters.entries[0].1.count, 4);
    // The window boundary is crossed: exactly this call emits and the
    // counter starts a fresh window.
    assert!(rate_limited_warn(&mut counters, "status_error", 1005));
    assert_eq!(counters.entries[0].1.count, 0);
    assert_eq!(counters.entries[0].1.last_emit_ms, 1005);
    // The rest of the new window stays silent again.
    assert!(!rate_limited_warn(&mut counters, "status_error", 1100));
    assert!(!rate_limited_warn(&mut counters, "status_error", 2000));
    // Another full interval elapsed since 1005.
    assert!(rate_limited_warn(&mut counters, "status_error", 2010));
}

#[test]
fn emission_exactly_at_boundary() {
    let mut counters = WarnCounters::new();
    assert!(!rate_limited_warn(&mut counters, "status_error", 0));
    assert!(rate_limited_warn(&mut counters, "status_error", 1000));
}

#[test]
fn classes_are_tracked_separately() {
    let mut counters = WarnCounters::new();
    assert!(!rate_limited_warn(&mut counters, "goal_position_error", 0));
    assert!(!rate_limited_warn(&mut counters, "status_error", 10));
    assert_eq!(counters.entries.len(), 2);
    // Crossing the window of the first class does not emit the second.
    assert!(rate_limited_warn(&mut counters, "goal_position_error", 1000));
    assert!(!rate_limited_warn(&mut counters, "status_error", 1005));
    assert_eq!(counters.entries[0].1.count, 0);
    assert_eq!(counters.entries[1].1.count, 2);
}

#[test]
fn saturated_count_stays_put() {
    let mut counters = WarnCounters {
        entries: vec![(
            "status_error".to_string(),
            WarnCounter { count: u64::MAX, last_emit_ms: 0 },
        )],
    };
    // Still inside the window: the count sticks at its maximum instead
    // of wrapping.
    assert!(!rate_limited_warn(&mut counters, "status_error", 500));
    assert_eq!(counters.entries[0].1.count, u64::MAX);
    // The emission still happens once the window elapses.
    assert!(rate_limited_warn(&mut counters, "status_error", 1500));
    assert_eq!(counters.entries[0].1.count, 0);
}
