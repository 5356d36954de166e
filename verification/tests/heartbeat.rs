use tray_shell::utils::{heartbeat_step, heartbeat_tick, HEARTBEAT_INTERVAL_SECS};

#[test]
fn tick_emits_while_the_window_exists() {
    let m = heartbeat_tick(true).expect("a live window gets the liveness event");
    assert_eq!(m.message, "LRT Message");
}

#[test]
fn tick_is_silent_without_a_window() {
    assert!(heartbeat_tick(false).is_none());
}

#[test]
fn interval_fits_any_three_second_window() {
    // ticks come every two seconds, so a three-second stretch holds one
    assert!(HEARTBEAT_INTERVAL_SECS < 3);
}

#[test]
fn a_stop_signal_ends_the_loop_silently() {
    let (go_on, emitted) = heartbeat_step(true, true);
    assert!(!go_on);
    assert!(emitted.is_none());
    let (go_on, emitted) = heartbeat_step(false, true);
    assert!(go_on);
    assert_eq!(emitted.unwrap().message, "LRT Message");
}

#[test]
fn a_stretch_of_ticks_emits_once_per_live_tick() {
    let window_present = [false, true, false, true, true];
    let emitted: Vec<_> = window_present
        .iter()
        .filter_map(|&w| heartbeat_tick(w))
        .collect();
    assert_eq!(emitted.len(), 3);
    let silent: Vec<_> = [false, false].iter().filter_map(|&w| heartbeat_tick(w)).collect();
    assert!(silent.is_empty());
}
