//! Newer-generation tray plumbing: the tray icon resource is registered
//! with its own identifier and menu, menu activations arrive through a
//! menu-event callback, and raw icon interactions (clicks) arrive
//! through a separate icon-event callback with explicit mouse buttons.
//! The playback state machine is the same one the menu-event handler of
//! the older plumbing drives.

use vstd::prelude::*;

use crate::events::{IconAsset, WindowInfo, WindowOp};
use crate::menu::{Menu, MenuEntry, MenuEntryView, MenuItem, MenuItemView, MenuView, SubEntry,
    SubEntryView, Submenu, SubmenuView, menu_ids};

pub use crate::sys_tray::TrayState;

verus! {

/// Payload of a tray UI event: the activated menu-item identifier, or a
/// click tag such as `left-click`.
#[derive(Clone, Debug)]
pub struct IconTrayPayload {
    pub message: String,
}

#[verifier::ext_equal]
pub ghost struct IconTrayPayloadView {
    pub message: Seq<char>,
}

impl View for IconTrayPayload {
    type V = IconTrayPayloadView;

    open spec fn view(&self) -> IconTrayPayloadView {
        IconTrayPayloadView { message: self.message@ }
    }
}

impl IconTrayPayload {
    pub fn new(message: &str) -> (r: IconTrayPayload)
        ensures
            r@ == (IconTrayPayloadView { message: message@ }),
    {
        IconTrayPayload { message: message.to_owned() }
    }
}

/// Mouse button of a tray-icon click.
#[derive(Clone, Copy, PartialEq, Eq, Structural, Debug)]
pub enum MouseButton {
    Left,
    Right,
    Middle,
}

/// Whether the button was pressed or released.
#[derive(Clone, Copy, PartialEq, Eq, Structural, Debug)]
pub enum MouseButtonState {
    Up,
    Down,
}

/// A raw tray-icon interaction. `Other` stands for the interactions the
/// handler ignores (pointer enter, move, leave).
#[derive(Clone, Copy, PartialEq, Eq, Structural, Debug)]
pub enum IconEvent {
    Click { button: MouseButton, button_state: MouseButtonState },
    DoubleClick,
    Other,
}

/// One event pushed to the main window's UI channel.
#[derive(Clone, Debug)]
pub struct IconEmission {
    pub channel: String,
    pub payload: IconTrayPayload,
}

#[verifier::ext_equal]
pub ghost struct IconEmissionView {
    pub channel: Seq<char>,
    pub payload: IconTrayPayloadView,
}

impl View for IconEmission {
    type V = IconEmissionView;

    open spec fn view(&self) -> IconEmissionView {
        IconEmissionView { channel: self.channel@, payload: self.payload@ }
    }
}

/// What the menu-event callback decides for one activated identifier.
#[derive(Clone, Debug)]
pub struct IconMenuResponse {
    pub next_state: TrayState,
    pub emit: Option<IconEmission>,
    pub window_op: Option<WindowOp>,
    pub icon_update: Option<IconAsset>,
    pub exit_code: Option<i32>,
}

#[verifier::ext_equal]
pub ghost struct IconMenuResponseView {
    pub next_state: TrayState,
    pub emit: Option<IconEmissionView>,
    pub window_op: Option<WindowOp>,
    pub icon_update: Option<IconAsset>,
    pub exit_code: Option<i32>,
}

impl View for IconMenuResponse {
    type V = IconMenuResponseView;

    open spec fn view(&self) -> IconMenuResponseView {
        IconMenuResponseView {
            next_state: self.next_state,
            emit: match self.emit {
                Some(e) => Some(e@),
                None => None,
            },
            window_op: self.window_op,
            icon_update: self.icon_update,
            exit_code: self.exit_code,
        }
    }
}

/// What a menu-item activation decides: the activation is reported on
/// the `systemTray` channel when the main window exists, and the
/// recognized identifiers quit, toggle the playback state with its icon
/// swap, or invert the window's visibility.
pub open spec fn spec_icon_menu_response(
    state: TrayState,
    window: Option<WindowInfo>,
    id: Seq<char>,
) -> IconMenuResponseView {
    let emit = if window is Some {
        Some(
            IconEmissionView {
                channel: "systemTray"@,
                payload: IconTrayPayloadView { message: id },
            },
        )
    } else {
        None
    };
    let base = IconMenuResponseView {
        next_state: state,
        emit,
        window_op: None,
        icon_update: None,
        exit_code: None,
    };
    if id == "quit"@ {
        IconMenuResponseView { exit_code: Some(0), ..base }
    } else if id == "toggle-tray-icon"@ {
        IconMenuResponseView {
            next_state: state.spec_toggle(),
            icon_update: state.spec_toggle_icon(),
            ..base
        }
    } else if id == "toggle-visibility"@ {
        match window {
            Some(w) => IconMenuResponseView {
                window_op: Some(
                    if w.visible {
                        WindowOp::Hide
                    } else {
                        WindowOp::Show
                    },
                ),
                ..base
            },
            None => base,
        }
    } else {
        base
    }
}

/// Decides the response to one menu activation delivered to the tray
/// icon's menu callback.
pub fn on_menu_event(state: TrayState, window: Option<WindowInfo>, id: &String) -> (r:
    IconMenuResponse)
    ensures
        r@ == spec_icon_menu_response(state, window, id@),
{
    let emit = match window {
        Some(_) => Some(
            IconEmission {
                channel: "systemTray".to_owned(),
                payload: IconTrayPayload::new(id.as_str()),
            },
        ),
        None => None,
    };
    if *id == "quit".to_owned() {
        IconMenuResponse {
            next_state: state,
            emit,
            window_op: None,
            icon_update: None,
            exit_code: Some(0),
        }
    } else if *id == "toggle-tray-icon".to_owned() {
        let icon_update = match state {
            TrayState::NotPlaying => Some(IconAsset::Active),
            TrayState::Playing => Some(IconAsset::Idle),
            TrayState::Paused => None,
        };
        IconMenuResponse {
            next_state: state.toggle(),
            emit,
            window_op: None,
            icon_update,
            exit_code: None,
        }
    } else if *id == "toggle-visibility".to_owned() {
        match window {
            Some(w) => IconMenuResponse {
                next_state: state,
                emit,
                window_op: Some(
                    if w.visible {
                        WindowOp::Hide
                    } else {
                        WindowOp::Show
                    },
                ),
                icon_update: None,
                exit_code: None,
            },
            None => IconMenuResponse {
                next_state: state,
                emit,
                window_op: None,
                icon_update: None,
                exit_code: None,
            },
        }
    } else {
        IconMenuResponse { next_state: state, emit, window_op: None, icon_update: None, exit_code: None }
    }
}

/// Law: "quit" exits with status 0 from this plumbing too, in every
/// playback state and whatever is known of the window.
pub proof fn lemma_icon_menu_quit_exits_zero(state: TrayState, window: Option<WindowInfo>)
    ensures
        spec_icon_menu_response(state, window, "quit"@).exit_code == Some(0i32),
        spec_icon_menu_response(state, window, "quit"@).next_state == state,
{
}

/// Law: the "toggle-tray-icon" activation drives exactly the toggle
/// transition and the matching icon swap, and never exits.
pub proof fn lemma_icon_menu_toggle_transition(state: TrayState, window: Option<WindowInfo>)
    ensures
        spec_icon_menu_response(state, window, "toggle-tray-icon"@).next_state
            == state.spec_toggle(),
        spec_icon_menu_response(state, window, "toggle-tray-icon"@).icon_update
            == state.spec_toggle_icon(),
        spec_icon_menu_response(state, window, "toggle-tray-icon"@).exit_code is None,
{
    reveal_strlit("quit");
    reveal_strlit("toggle-tray-icon");
    assert("quit"@.len() == 4);
    assert("toggle-tray-icon"@.len() == 16);
}

/// What the icon-event callback decides for one raw interaction.
#[derive(Clone, Debug)]
pub struct IconClickResponse {
    pub emit: Option<IconEmission>,
    pub show_window: bool,
    pub focus_window: bool,
    pub log: Option<String>,
}

#[verifier::ext_equal]
pub ghost struct IconClickResponseView {
    pub emit: Option<IconEmissionView>,
    pub show_window: bool,
    pub focus_window: bool,
    pub log: Option<Seq<char>>,
}

impl View for IconClickResponse {
    type V = IconClickResponseView;

    open spec fn view(&self) -> IconClickResponseView {
        IconClickResponseView {
            emit: match self.emit {
                Some(e) => Some(e@),
                None => None,
            },
            show_window: self.show_window,
            focus_window: self.focus_window,
            log: match self.log {
                Some(l) => Some(l@),
                None => None,
            },
        }
    }
}

/// What a raw icon interaction decides: a released left click reports a
/// `left-click` on the `system-tray` channel and brings the main window
/// forward with focus; a released right click and a double click only
/// leave a diagnostic line; everything else is ignored.
pub open spec fn spec_icon_click_response(
    window: Option<WindowInfo>,
    event: IconEvent,
) -> IconClickResponseView {
    let silent = IconClickResponseView {
        emit: None,
        show_window: false,
        focus_window: false,
        log: None,
    };
    match event {
        IconEvent::Click { button: MouseButton::Left, button_state: MouseButtonState::Up } => IconClickResponseView {
            emit: if window is Some {
                Some(
                    IconEmissionView {
                        channel: "system-tray"@,
                        payload: IconTrayPayloadView { message: "left-click"@ },
                    },
                )
            } else {
                None
            },
            show_window: window is Some,
            focus_window: window is Some,
            log: Some("system tray received a left click"@),
        },
        IconEvent::Click { button: MouseButton::Right, button_state: MouseButtonState::Up } => IconClickResponseView {
            log: Some("system tray received a right click"@),
            ..silent
        },
        IconEvent::DoubleClick => IconClickResponseView {
            log: Some("system tray received a double click"@),
            ..silent
        },
        _ => silent,
    }
}

/// Decides the response to one raw tray-icon interaction.
pub fn on_tray_icon_event(window: Option<WindowInfo>, event: IconEvent) -> (r: IconClickResponse)
    ensures
        r@ == spec_icon_click_response(window, event),
{
    match event {
        IconEvent::Click { button: MouseButton::Left, button_state: MouseButtonState::Up } => {
            let has_window = match window {
                Some(_) => true,
                None => false,
            };
            IconClickResponse {
                emit: if has_window {
                    Some(
                        IconEmission {
                            channel: "system-tray".to_owned(),
                            payload: IconTrayPayload::new("left-click"),
                        },
                    )
                } else {
                    None
                },
                show_window: has_window,
                focus_window: has_window,
                log: Some("system tray received a left click".to_owned()),
            }
        },
        IconEvent::Click { button: MouseButton::Right, button_state: MouseButtonState::Up } => IconClickResponse {
            emit: None,
            show_window: false,
            focus_window: false,
            log: Some("system tray received a right click".to_owned()),
        },
        IconEvent::DoubleClick => IconClickResponse {
            emit: None,
            show_window: false,
            focus_window: false,
            log: Some("system tray received a double click".to_owned()),
        },
        _ => IconClickResponse { emit: None, show_window: false, focus_window: false, log: None },
    }
}

/// The tray menu rebuilt for a language tag, with the keyboard
/// accelerators this plumbing supports. The labels of the current
/// translation stub are the same for every tag: an unrecognized tag
/// falls back silently to the default texts, and the identifiers never
/// depend on the tag at all.
pub open spec fn icon_tray_menu_view(lang: Seq<char>) -> MenuView {
    MenuView {
        entries: seq![
            MenuEntryView::Submenu(
                SubmenuView {
                    label: "Sub Menu!"@,
                    entries: seq![
                        SubEntryView::Item(
                            MenuItemView {
                                id: "bf-sep"@,
                                label: "Before Separator"@,
                                accelerator: None,
                            },
                        ),
                        SubEntryView::Separator,
                        SubEntryView::Item(
                            MenuItemView {
                                id: "af-sep"@,
                                label: "After Separator"@,
                                accelerator: None,
                            },
                        ),
                    ],
                },
            ),
            MenuEntryView::Item(
                MenuItemView {
                    id: "toggle-visibility"@,
                    label: "Hide Window"@,
                    accelerator: Some("Ctrl+Shift+T"@),
                },
            ),
            MenuEntryView::Item(
                MenuItemView { id: "quit"@, label: "Quit"@, accelerator: Some("Ctrl+Q"@) },
            ),
            MenuEntryView::Item(
                MenuItemView {
                    id: "toggle-tray-icon"@,
                    label: "Toggle the tray icon"@,
                    accelerator: None,
                },
            ),
        ],
    }
}

/// Law: rebuilding the menu for any language tag, recognized or not,
/// keeps every menu-item identifier; at most labels may differ.
pub proof fn lemma_icon_menu_ids_language_independent(lang_a: Seq<char>, lang_b: Seq<char>)
    ensures
        menu_ids(icon_tray_menu_view(lang_a)) == menu_ids(icon_tray_menu_view(lang_b)),
{
}

/// Builds the tray menu for a language tag: one submenu of two items
/// around a separator, then the visibility, quit and icon-toggle items.
pub fn create_tray_menu(lang: String) -> (r: Menu)
    ensures
        r@ == icon_tray_menu_view(lang@),
{
    let mut sub_entries: Vec<SubEntry> = Vec::new();
    sub_entries.push(SubEntry::Item(MenuItem::new("bf-sep", "Before Separator")));
    sub_entries.push(SubEntry::Separator);
    sub_entries.push(SubEntry::Item(MenuItem::new("af-sep", "After Separator")));
    let submenu = Submenu { label: "Sub Menu!".to_owned(), entries: sub_entries };
    let mut entries: Vec<MenuEntry> = Vec::new();
    entries.push(MenuEntry::Submenu(submenu));
    entries.push(
        MenuEntry::Item(
            MenuItem::with_accelerator("toggle-visibility", "Hide Window", "Ctrl+Shift+T"),
        ),
    );
    entries.push(MenuEntry::Item(MenuItem::with_accelerator("quit", "Quit", "Ctrl+Q")));
    entries.push(MenuEntry::Item(MenuItem::new("toggle-tray-icon", "Toggle the tray icon")));
    let r = Menu { entries };
    proof {
        assert(r@ =~~= icon_tray_menu_view(lang@));
    }
    let _ = lang;
    r
}

/// The tray icon resource as registered at startup: a stable
/// identifier, the default-language menu, and whether a left click
/// opens the menu.
pub struct TrayIconDescriptor {
    pub id: String,
    pub menu: Menu,
    pub menu_on_left_click: bool,
}

pub fn create_tray_icon() -> (r: TrayIconDescriptor)
    ensures
        r.id@ == "tray-main"@,
        r.menu@ == icon_tray_menu_view("en"@),
        r.menu_on_left_click,
{
    TrayIconDescriptor {
        id: "tray-main".to_owned(),
        menu: create_tray_menu("en".to_owned()),
        menu_on_left_click: true,
    }
}

/// Decides the menu swapped whole onto the tray resource when the
/// display language changes. Any tag is accepted; when the tray
/// resource is gone the rebuild is skipped.
pub fn tray_update_lang(tray_present: bool, lang: String) -> (r: Option<Menu>)
    ensures
        tray_present <==> r is Some,
        r matches Some(m) ==> m@ == icon_tray_menu_view(lang@),
{
    if tray_present {
        Some(create_tray_menu(lang))
    } else {
        None
    }
}

} // verus!
