use tray_shell::events::{IconAsset, WindowInfo, WindowOp};
use tray_shell::sys_tray::{tray_event_handler, TrayEvent, TrayState};

fn click(id: &str) -> TrayEvent {
    TrayEvent::MenuItemClick { id: id.to_owned() }
}

#[test]
fn quit_exits_zero_from_every_state() {
    for state in [TrayState::NotPlaying, TrayState::Paused, TrayState::Playing] {
        let r = tray_event_handler(state, Some(WindowInfo { visible: true }), &click("quit"));
        assert_eq!(r.exit_code, Some(0));
        assert_eq!(r.next_state, state);
        assert_eq!(r.window_op, None);
        let r2 = tray_event_handler(state, None, &click("quit"));
        assert_eq!(r2.exit_code, Some(0));
    }
}

#[test]
fn every_menu_activation_is_reported() {
    let r = tray_event_handler(
        TrayState::NotPlaying,
        Some(WindowInfo { visible: true }),
        &click("af-sep"),
    );
    let emission = r.emit.expect("activation must be reported when the window exists");
    assert_eq!(emission.channel, "systemTray");
    assert_eq!(emission.payload.message, "af-sep");
    assert_eq!(r.next_state, TrayState::NotPlaying);
    assert_eq!(r.exit_code, None);
}

#[test]
fn no_window_skips_the_report() {
    let r = tray_event_handler(TrayState::NotPlaying, None, &click("af-sep"));
    assert!(r.emit.is_none());
}

#[test]
fn toggle_tray_icon_swaps_state_and_icon() {
    let r = tray_event_handler(
        TrayState::NotPlaying,
        Some(WindowInfo { visible: true }),
        &click("toggle-tray-icon"),
    );
    assert_eq!(r.next_state, TrayState::Playing);
    assert_eq!(r.icon_update, Some(IconAsset::Active));
    let r2 = tray_event_handler(
        TrayState::Playing,
        Some(WindowInfo { visible: true }),
        &click("toggle-tray-icon"),
    );
    assert_eq!(r2.next_state, TrayState::NotPlaying);
    assert_eq!(r2.icon_update, Some(IconAsset::Idle));
    let r3 = tray_event_handler(
        TrayState::Paused,
        Some(WindowInfo { visible: true }),
        &click("toggle-tray-icon"),
    );
    assert_eq!(r3.next_state, TrayState::Paused);
    assert_eq!(r3.icon_update, None);
}

#[test]
fn toggle_visibility_hides_a_shown_window() {
    let r = tray_event_handler(
        TrayState::NotPlaying,
        Some(WindowInfo { visible: true }),
        &click("toggle-visibility"),
    );
    assert_eq!(r.window_op, Some(WindowOp::Hide));
    assert_eq!(r.label_update.as_deref(), Some("Show Window"));
}

#[test]
fn toggle_visibility_shows_a_hidden_window() {
    let r = tray_event_handler(
        TrayState::NotPlaying,
        Some(WindowInfo { visible: false }),
        &click("toggle-visibility"),
    );
    assert_eq!(r.window_op, Some(WindowOp::Show));
    assert_eq!(r.label_update.as_deref(), Some("Hide Window"));
}

#[test]
fn toggle_visibility_twice_restores_window_and_label() {
    // start shown, label consistent with a shown window
    let mut visible = true;
    let mut label = "Hide Window".to_owned();
    for _ in 0..2 {
        let r = tray_event_handler(
            TrayState::NotPlaying,
            Some(WindowInfo { visible }),
            &click("toggle-visibility"),
        );
        match r.window_op {
            Some(WindowOp::Show) => visible = true,
            Some(WindowOp::Hide) => visible = false,
            None => {}
        }
        if let Some(l) = r.label_update {
            label = l;
        }
    }
    assert!(visible);
    assert_eq!(label, "Hide Window");
}

#[test]
fn toggle_visibility_without_window_is_skipped() {
    let r = tray_event_handler(TrayState::NotPlaying, None, &click("toggle-visibility"));
    assert_eq!(r.window_op, None);
    assert_eq!(r.label_update, None);
}

#[test]
fn unknown_identifier_only_reports() {
    let r = tray_event_handler(
        TrayState::Playing,
        Some(WindowInfo { visible: true }),
        &click("bf-sep"),
    );
    assert_eq!(r.next_state, TrayState::Playing);
    assert_eq!(r.window_op, None);
    assert_eq!(r.icon_update, None);
    assert_eq!(r.exit_code, None);
    assert!(r.emit.is_some());
}

#[test]
fn left_click_emits_tag_and_logs() {
    let r = tray_event_handler(
        TrayState::NotPlaying,
        Some(WindowInfo { visible: false }),
        &TrayEvent::LeftClick,
    );
    let emission = r.emit.expect("left click is reported when the window exists");
    assert_eq!(emission.channel, "system-tray");
    assert_eq!(emission.payload.message, "left-click");
    assert_eq!(r.log.as_deref(), Some("system tray received a left click"));
}

#[test]
fn right_and_double_click_only_log() {
    let r = tray_event_handler(
        TrayState::NotPlaying,
        Some(WindowInfo { visible: true }),
        &TrayEvent::RightClick,
    );
    assert!(r.emit.is_none());
    assert_eq!(r.log.as_deref(), Some("system tray received a right click"));
    let d = tray_event_handler(
        TrayState::NotPlaying,
        Some(WindowInfo { visible: true }),
        &TrayEvent::DoubleClick,
    );
    assert!(d.emit.is_none());
    assert_eq!(d.log.as_deref(), Some("system tray received a double click"));
}
