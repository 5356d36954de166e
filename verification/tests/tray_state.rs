use tray_shell::sys_tray::TrayState;

fn toggles(n: usize) -> TrayState {
    let mut s = TrayState::NotPlaying;
    let mut i = 0;
    while i < n {
        s = s.toggle();
        i += 1;
    }
    s
}

#[test]
fn zero_toggles_is_not_playing() {
    assert_eq!(toggles(0), TrayState::NotPlaying);
}

#[test]
fn odd_toggles_is_playing() {
    assert_eq!(toggles(1), TrayState::Playing);
    assert_eq!(toggles(3), TrayState::Playing);
    assert_eq!(toggles(7), TrayState::Playing);
}

#[test]
fn even_toggles_is_not_playing() {
    assert_eq!(toggles(2), TrayState::NotPlaying);
    assert_eq!(toggles(4), TrayState::NotPlaying);
    assert_eq!(toggles(10), TrayState::NotPlaying);
}

#[test]
fn paused_is_inert_under_toggle() {
    assert_eq!(TrayState::Paused.toggle(), TrayState::Paused);
    assert_eq!(TrayState::Paused.toggle().toggle(), TrayState::Paused);
}
