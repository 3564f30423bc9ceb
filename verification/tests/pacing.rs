use chip8::pacing::{calculate_delta, frame_due, FPS, FPS_INTERVAL};

#[test]
fn sixty_steps_a_second() {
    assert_eq!(FPS, 60);
    assert_eq!(FPS_INTERVAL, 16);
}

#[test]
fn delta_is_the_time_gone_by() {
    assert_eq!(calculate_delta(100, 116), 16);
    assert_eq!(calculate_delta(0, 0), 0);
    assert_eq!(calculate_delta(5, 5), 0);
    assert_eq!(calculate_delta(0, u64::MAX), u64::MAX);
}

#[test]
fn delta_is_zero_when_the_start_is_later() {
    assert_eq!(calculate_delta(116, 100), 0);
    assert_eq!(calculate_delta(u64::MAX, 0), 0);
}

#[test]
fn frame_is_due_after_a_whole_interval() {
    assert!(!frame_due(0));
    assert!(!frame_due(15));
    assert!(frame_due(16));
    assert!(frame_due(17));
    assert!(frame_due(u64::MAX));
}

#[test]
fn a_late_frame_is_not_made_up_for() {
    // three intervals late: one step is due, and the clock starts again
    let start = 1_000;
    let now = start + 3 * FPS_INTERVAL;
    assert!(frame_due(calculate_delta(start, now)));
    assert!(!frame_due(calculate_delta(now, now + 1)));
}
