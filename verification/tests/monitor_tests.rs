use away::monitor::{
    activity_detected, are_points_equal, is_quit_combo, signal_activity, MonitoredKey, PointerPos,
};

#[test]
fn equal_points_compare_equal() {
    let a = PointerPos { x: 3, y: -7 };
    let b = PointerPos { x: 3, y: -7 };
    assert!(are_points_equal(&a, &b));
    let c = PointerPos { x: 3, y: 7 };
    assert!(!are_points_equal(&a, &c));
}

#[test]
fn keys_down_count_as_activity() {
    let p = PointerPos { x: 0, y: 0 };
    assert!(activity_detected(1, &p, &p));
    assert!(!activity_detected(0, &p, &p));
}

#[test]
fn pointer_motion_counts_as_activity() {
    let before = PointerPos { x: 10, y: 10 };
    let after = PointerPos { x: 11, y: 10 };
    assert!(activity_detected(0, &before, &after));
    assert!(!activity_detected(0, &before, &before));
}

#[test]
fn quit_needs_a_control_and_the_letter() {
    let combo = vec![MonitoredKey::ControlLeft, MonitoredKey::LetterQ];
    assert!(is_quit_combo(&combo));
    let right = vec![MonitoredKey::Other, MonitoredKey::LetterQ, MonitoredKey::ControlRight];
    assert!(is_quit_combo(&right));
    let only_ctrl = vec![MonitoredKey::ControlLeft];
    assert!(!is_quit_combo(&only_ctrl));
    let only_q = vec![MonitoredKey::LetterQ];
    assert!(!is_quit_combo(&only_q));
    let none: Vec<MonitoredKey> = Vec::new();
    assert!(!is_quit_combo(&none));
}

#[test]
fn signal_fires_once_per_key_press_not_per_poll() {
    let p = PointerPos { x: 0, y: 0 };
    let none: Vec<u32> = Vec::new();
    let shift = vec![50u32];
    assert!(signal_activity(&none, &shift, &p, &p));
    assert!(!signal_activity(&shift, &shift, &p, &p));
    assert!(!signal_activity(&shift, &none, &p, &p));
    assert!(!signal_activity(&none, &none, &p, &p));
}

#[test]
fn signal_fires_when_the_held_key_set_changes() {
    let p = PointerPos { x: 0, y: 0 };
    let shift = vec![50u32];
    let shift_and_a = vec![50u32, 30u32];
    let a = vec![30u32];
    assert!(signal_activity(&shift, &shift_and_a, &p, &p));
    assert!(signal_activity(&shift, &a, &p, &p));
    assert!(!signal_activity(&shift_and_a, &shift_and_a, &p, &p));
}

#[test]
fn signal_fires_on_each_pointer_move() {
    let before = PointerPos { x: 10, y: 10 };
    let after = PointerPos { x: 11, y: 10 };
    let held = vec![50u32];
    assert!(signal_activity(&held, &held, &before, &after));
    assert!(!signal_activity(&held, &held, &after, &after));
}
