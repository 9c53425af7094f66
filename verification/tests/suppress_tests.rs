use away::suppress::SuppressionController;

#[test]
fn starts_unsuppressed() {
    let c = SuppressionController::new();
    assert!(!c.is_suppressed());
    assert_eq!(c.generation, 0);
}

#[test]
fn activity_opens_suppression() {
    let mut c = SuppressionController::new();
    c.on_activity();
    assert!(c.is_suppressed());
    assert_eq!(c.generation, 1);
}

#[test]
fn matching_timer_closes_suppression() {
    let mut c = SuppressionController::new();
    c.on_activity();
    c.on_quiet_elapsed(1);
    assert!(!c.is_suppressed());
}

#[test]
fn stale_timer_is_discarded() {
    let mut c = SuppressionController::new();
    c.on_activity();
    c.on_activity();
    c.on_quiet_elapsed(1);
    assert!(c.is_suppressed());
    c.on_quiet_elapsed(2);
    assert!(!c.is_suppressed());
}

#[test]
fn timer_while_idle_changes_nothing() {
    let mut c = SuppressionController::new();
    c.on_quiet_elapsed(0);
    assert!(!c.is_suppressed());
    assert_eq!(c.generation, 0);
}

#[test]
fn new_activity_while_suppressed_restarts_the_window() {
    let mut c = SuppressionController::new();
    c.on_activity();
    let first = c.generation;
    c.on_activity();
    assert!(c.is_suppressed());
    assert!(c.generation > first);
    c.on_quiet_elapsed(first);
    assert!(c.is_suppressed());
}
