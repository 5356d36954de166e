use tray_shell::events::{IconAsset, WindowInfo, WindowOp};
use tray_shell::tray_icon::{on_menu_event, on_tray_icon_event, IconEvent, MouseButton,
    MouseButtonState, TrayState};

#[test]
fn released_left_click_brings_the_window_forward() {
    let r = on_tray_icon_event(
        Some(WindowInfo { visible: false }),
        IconEvent::Click { button: MouseButton::Left, button_state: MouseButtonState::Up },
    );
    assert!(r.show_window);
    assert!(r.focus_window);
    let emission = r.emit.expect("a released left click is reported");
    assert_eq!(emission.channel, "system-tray");
    assert_eq!(emission.payload.message, "left-click");
    assert_eq!(r.log.as_deref(), Some("system tray received a left click"));
}

#[test]
fn left_click_without_window_only_logs() {
    let r = on_tray_icon_event(
        None,
        IconEvent::Click { button: MouseButton::Left, button_state: MouseButtonState::Up },
    );
    assert!(!r.show_window);
    assert!(!r.focus_window);
    assert!(r.emit.is_none());
    assert_eq!(r.log.as_deref(), Some("system tray received a left click"));
}

#[test]
fn pressed_left_click_is_ignored() {
    let r = on_tray_icon_event(
        Some(WindowInfo { visible: true }),
        IconEvent::Click { button: MouseButton::Left, button_state: MouseButtonState::Down },
    );
    assert!(!r.show_window);
    assert!(r.emit.is_none());
    assert!(r.log.is_none());
}

#[test]
fn right_click_and_double_click_only_log() {
    let r = on_tray_icon_event(
        Some(WindowInfo { visible: true }),
        IconEvent::Click { button: MouseButton::Right, button_state: MouseButtonState::Up },
    );
    assert!(r.emit.is_none());
    assert_eq!(r.log.as_deref(), Some("system tray received a right click"));
    let d = on_tray_icon_event(Some(WindowInfo { visible: true }), IconEvent::DoubleClick);
    assert_eq!(d.log.as_deref(), Some("system tray received a double click"));
}

#[test]
fn middle_click_and_other_interactions_are_ignored() {
    let r = on_tray_icon_event(
        Some(WindowInfo { visible: true }),
        IconEvent::Click { button: MouseButton::Middle, button_state: MouseButtonState::Up },
    );
    assert!(r.emit.is_none());
    assert!(r.log.is_none());
    let o = on_tray_icon_event(Some(WindowInfo { visible: true }), IconEvent::Other);
    assert!(o.emit.is_none());
    assert!(o.log.is_none());
}

#[test]
fn menu_quit_exits_zero_from_every_state() {
    for state in [TrayState::NotPlaying, TrayState::Paused, TrayState::Playing] {
        let r = on_menu_event(state, Some(WindowInfo { visible: true }), &"quit".to_owned());
        assert_eq!(r.exit_code, Some(0));
        assert_eq!(r.next_state, state);
    }
}

#[test]
fn menu_toggle_swaps_state_and_icon() {
    let r = on_menu_event(
        TrayState::NotPlaying,
        Some(WindowInfo { visible: true }),
        &"toggle-tray-icon".to_owned(),
    );
    assert_eq!(r.next_state, TrayState::Playing);
    assert_eq!(r.icon_update, Some(IconAsset::Active));
    let r2 = on_menu_event(r.next_state, None, &"toggle-tray-icon".to_owned());
    assert_eq!(r2.next_state, TrayState::NotPlaying);
    assert_eq!(r2.icon_update, Some(IconAsset::Idle));
    assert!(r2.emit.is_none());
}

#[test]
fn menu_toggle_visibility_inverts_what_it_saw() {
    let shown = on_menu_event(
        TrayState::NotPlaying,
        Some(WindowInfo { visible: true }),
        &"toggle-visibility".to_owned(),
    );
    assert_eq!(shown.window_op, Some(WindowOp::Hide));
    let hidden = on_menu_event(
        TrayState::NotPlaying,
        Some(WindowInfo { visible: false }),
        &"toggle-visibility".to_owned(),
    );
    assert_eq!(hidden.window_op, Some(WindowOp::Show));
    let gone = on_menu_event(TrayState::NotPlaying, None, &"toggle-visibility".to_owned());
    assert_eq!(gone.window_op, None);
}
