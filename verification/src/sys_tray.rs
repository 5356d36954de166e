//! Tray icon controller: the playback state machine bound to the tray
//! icon, the tray menu, and the decision logic of the tray event
//! handler. The handler turns one delivered event into the next
//! playback state plus the effects the shell must carry out (emissions,
//! window operations, icon and label swaps, process exit). The shell
//! performs those effects; a failed effect is dropped, never fatal,
//! except the explicit quit path.

use vstd::prelude::*;

use crate::events::{apply_label_update, apply_window_op, IconAsset, WindowInfo, WindowOp};
use crate::menu::{Menu, MenuEntry, MenuEntryView, MenuItem, MenuItemView, MenuView, SubEntry,
    SubEntryView, Submenu, SubmenuView, menu_ids};

verus! {

/// Payload of a tray UI event: the activated menu-item identifier, or a
/// click tag such as `left-click`.
#[derive(Clone, Debug)]
pub struct SystemTrayPayload {
    pub message: String,
}

#[verifier::ext_equal]
pub ghost struct SystemTrayPayloadView {
    pub message: Seq<char>,
}

impl View for SystemTrayPayload {
    type V = SystemTrayPayloadView;

    open spec fn view(&self) -> SystemTrayPayloadView {
        SystemTrayPayloadView { message: self.message@ }
    }
}

impl SystemTrayPayload {
    pub fn new(message: &str) -> (r: SystemTrayPayload)
        ensures
            r@ == (SystemTrayPayloadView { message: message@ }),
    {
        SystemTrayPayload { message: message.to_owned() }
    }
}

/// Playback state bound to the tray icon. Exactly one state holds at a
/// time. `Paused` is reserved: no menu transition currently enters or
/// leaves it, and an activation while in it is a no-op.
#[derive(Clone, Copy, PartialEq, Eq, Structural, Debug)]
pub enum TrayState {
    NotPlaying,
    Paused,
    Playing,
}

impl TrayState {
    /// The "toggle-tray-icon" transition: swaps the two live states and
    /// leaves the reserved `Paused` state where it is.
    pub open spec fn spec_toggle(self) -> TrayState {
        match self {
            TrayState::NotPlaying => TrayState::Playing,
            TrayState::Playing => TrayState::NotPlaying,
            TrayState::Paused => TrayState::Paused,
        }
    }

    /// Icon asset swapped onto the tray resource alongside the toggle:
    /// none when the state does not change.
    pub open spec fn spec_toggle_icon(self) -> Option<IconAsset> {
        match self {
            TrayState::NotPlaying => Some(IconAsset::Active),
            TrayState::Playing => Some(IconAsset::Idle),
            TrayState::Paused => None,
        }
    }

    pub fn toggle(self) -> (r: TrayState)
        ensures
            r == self.spec_toggle(),
    {
        match self {
            TrayState::NotPlaying => TrayState::Playing,
            TrayState::Playing => TrayState::NotPlaying,
            TrayState::Paused => TrayState::Paused,
        }
    }
}

/// State reached after `n` "toggle-tray-icon" activations, starting
/// from the initial `NotPlaying`.
pub open spec fn state_after_toggles(n: nat) -> TrayState
    decreases n,
{
    if n == 0 {
        TrayState::NotPlaying
    } else {
        state_after_toggles((n - 1) as nat).spec_toggle()
    }
}

/// Law: for every sequence of "toggle-tray-icon" activations, the state
/// after `n` toggles is `Playing` when `n` is odd and `NotPlaying` when
/// `n` is even.
pub proof fn lemma_toggle_parity(n: nat)
    ensures
        state_after_toggles(n) == if n % 2 == 1 {
            TrayState::Playing
        } else {
            TrayState::NotPlaying
        },
    decreases n,
{
    if n > 0 {
        lemma_toggle_parity((n - 1) as nat);
    }
}

/// A tray interaction as the host shell delivers it.
#[derive(Clone, Debug)]
pub enum TrayEvent {
    MenuItemClick { id: String },
    LeftClick,
    RightClick,
    DoubleClick,
}

#[verifier::ext_equal]
pub ghost enum TrayEventView {
    MenuItemClick { id: Seq<char> },
    LeftClick,
    RightClick,
    DoubleClick,
}

impl View for TrayEvent {
    type V = TrayEventView;

    open spec fn view(&self) -> TrayEventView {
        match self {
            TrayEvent::MenuItemClick { id } => TrayEventView::MenuItemClick { id: id@ },
            TrayEvent::LeftClick => TrayEventView::LeftClick,
            TrayEvent::RightClick => TrayEventView::RightClick,
            TrayEvent::DoubleClick => TrayEventView::DoubleClick,
        }
    }
}

/// One event pushed to the main window's UI channel.
#[derive(Clone, Debug)]
pub struct TrayEmission {
    pub channel: String,
    pub payload: SystemTrayPayload,
}

#[verifier::ext_equal]
pub ghost struct TrayEmissionView {
    pub channel: Seq<char>,
    pub payload: SystemTrayPayloadView,
}

impl View for TrayEmission {
    type V = TrayEmissionView;

    open spec fn view(&self) -> TrayEmissionView {
        TrayEmissionView { channel: self.channel@, payload: self.payload@ }
    }
}

/// Everything the handler decides for one delivered event. Each field
/// is an effect for the shell to carry out; `None` (or `next_state`
/// equal to the old state) means no change on that front.
#[derive(Clone, Debug)]
pub struct TrayResponse {
    pub next_state: TrayState,
    pub emit: Option<TrayEmission>,
    pub window_op: Option<WindowOp>,
    pub label_update: Option<String>,
    pub icon_update: Option<IconAsset>,
    pub exit_code: Option<i32>,
    pub log: Option<String>,
}

#[verifier::ext_equal]
pub ghost struct TrayResponseView {
    pub next_state: TrayState,
    pub emit: Option<TrayEmissionView>,
    pub window_op: Option<WindowOp>,
    pub label_update: Option<Seq<char>>,
    pub icon_update: Option<IconAsset>,
    pub exit_code: Option<i32>,
    pub log: Option<Seq<char>>,
}

impl View for TrayResponse {
    type V = TrayResponseView;

    open spec fn view(&self) -> TrayResponseView {
        TrayResponseView {
            next_state: self.next_state,
            emit: match self.emit {
                Some(e) => Some(e@),
                None => None,
            },
            window_op: self.window_op,
            label_update: match self.label_update {
                Some(l) => Some(l@),
                None => None,
            },
            icon_update: self.icon_update,
            exit_code: self.exit_code,
            log: match self.log {
                Some(l) => Some(l@),
                None => None,
            },
        }
    }
}

/// A response that decides nothing and keeps the state.
pub open spec fn spec_no_response(state: TrayState) -> TrayResponseView {
    TrayResponseView {
        next_state: state,
        emit: None,
        window_op: None,
        label_update: None,
        icon_update: None,
        exit_code: None,
        log: None,
    }
}

/// What a menu-item activation decides. Every activation is reported on
/// the `systemTray` channel when the main window exists; the recognized
/// identifiers additionally quit, toggle the playback state, or invert
/// the window's visibility and relabel the toggle item.
pub open spec fn spec_menu_click_response(
    state: TrayState,
    window: Option<WindowInfo>,
    id: Seq<char>,
) -> TrayResponseView {
    let emit = if window is Some {
        Some(
            TrayEmissionView {
                channel: "systemTray"@,
                payload: SystemTrayPayloadView { message: id },
            },
        )
    } else {
        None
    };
    if id == "quit"@ {
        TrayResponseView { emit, exit_code: Some(0), ..spec_no_response(state) }
    } else if id == "toggle-tray-icon"@ {
        TrayResponseView {
            next_state: state.spec_toggle(),
            emit,
            icon_update: state.spec_toggle_icon(),
            ..spec_no_response(state)
        }
    } else if id == "toggle-visibility"@ {
        match window {
            Some(w) => TrayResponseView {
                emit,
                window_op: Some(
                    if w.visible {
                        WindowOp::Hide
                    } else {
                        WindowOp::Show
                    },
                ),
                label_update: Some(
                    if w.visible {
                        "Show Window"@
                    } else {
                        "Hide Window"@
                    },
                ),
                ..spec_no_response(state)
            },
            None => TrayResponseView { emit, ..spec_no_response(state) },
        }
    } else {
        TrayResponseView { emit, ..spec_no_response(state) }
    }
}

/// What the handler decides for any delivered tray event.
pub open spec fn spec_tray_response(
    state: TrayState,
    window: Option<WindowInfo>,
    event: TrayEventView,
) -> TrayResponseView {
    match event {
        TrayEventView::MenuItemClick { id } => spec_menu_click_response(state, window, id),
        TrayEventView::LeftClick => TrayResponseView {
            emit: if window is Some {
                Some(
                    TrayEmissionView {
                        channel: "system-tray"@,
                        payload: SystemTrayPayloadView { message: "left-click"@ },
                    },
                )
            } else {
                None
            },
            log: Some("system tray received a left click"@),
            ..spec_no_response(state)
        },
        TrayEventView::RightClick => TrayResponseView {
            log: Some("system tray received a right click"@),
            ..spec_no_response(state)
        },
        TrayEventView::DoubleClick => TrayResponseView {
            log: Some("system tray received a double click"@),
            ..spec_no_response(state)
        },
    }
}

/// Decides the response to one tray event: the next playback state and
/// the effects for the shell to perform. The window argument is what
/// the shell found out about the main window just before the call;
/// `None` skips every window-bound effect.
pub fn tray_event_handler(state: TrayState, window: Option<WindowInfo>, event: &TrayEvent) -> (r:
    TrayResponse)
    ensures
        r@ == spec_tray_response(state, window, event@),
{
    match event {
        TrayEvent::MenuItemClick { id } => {
            let emit = match window {
                Some(_) => Some(
                    TrayEmission {
                        channel: "systemTray".to_owned(),
                        payload: SystemTrayPayload::new(id.as_str()),
                    },
                ),
                None => None,
            };
            if *id == "quit".to_owned() {
                TrayResponse {
                    next_state: state,
                    emit,
                    window_op: None,
                    label_update: None,
                    icon_update: None,
                    exit_code: Some(0),
                    log: None,
                }
            } else if *id == "toggle-tray-icon".to_owned() {
                let icon_update = match state {
                    TrayState::NotPlaying => Some(IconAsset::Active),
                    TrayState::Playing => Some(IconAsset::Idle),
                    TrayState::Paused => None,
                };
                TrayResponse {
                    next_state: state.toggle(),
                    emit,
                    window_op: None,
                    label_update: None,
                    icon_update,
                    exit_code: None,
                    log: None,
                }
            } else if *id == "toggle-visibility".to_owned() {
                match window {
                    Some(w) => TrayResponse {
                        next_state: state,
                        emit,
                        window_op: Some(
                            if w.visible {
                                WindowOp::Hide
                            } else {
                                WindowOp::Show
                            },
                        ),
                        label_update: Some(
                            if w.visible {
                                "Show Window".to_owned()
                            } else {
                                "Hide Window".to_owned()
                            },
                        ),
                        icon_update: None,
                        exit_code: None,
                        log: None,
                    },
                    None => TrayResponse {
                        next_state: state,
                        emit,
                        window_op: None,
                        label_update: None,
                        icon_update: None,
                        exit_code: None,
                        log: None,
                    },
                }
            } else {
                TrayResponse {
                    next_state: state,
                    emit,
                    window_op: None,
                    label_update: None,
                    icon_update: None,
                    exit_code: None,
                    log: None,
                }
            }
        },
        TrayEvent::LeftClick => TrayResponse {
            next_state: state,
            emit: match window {
                Some(_) => Some(
                    TrayEmission {
                        channel: "system-tray".to_owned(),
                        payload: SystemTrayPayload::new("left-click"),
                    },
                ),
                None => None,
            },
            window_op: None,
            label_update: None,
            icon_update: None,
            exit_code: None,
            log: Some("system tray received a left click".to_owned()),
        },
        TrayEvent::RightClick => TrayResponse {
            next_state: state,
            emit: None,
            window_op: None,
            label_update: None,
            icon_update: None,
            exit_code: None,
            log: Some("system tray received a right click".to_owned()),
        },
        TrayEvent::DoubleClick => TrayResponse {
            next_state: state,
            emit: None,
            window_op: None,
            label_update: None,
            icon_update: None,
            exit_code: None,
            log: Some("system tray received a double click".to_owned()),
        },
    }
}

/// Law: "quit" exits with status 0 and otherwise changes nothing, in
/// every playback state and whatever is known of the window.
pub proof fn lemma_quit_always_exits_zero(state: TrayState, window: Option<WindowInfo>)
    ensures
        spec_menu_click_response(state, window, "quit"@).exit_code == Some(0i32),
        spec_menu_click_response(state, window, "quit"@).next_state == state,
        spec_menu_click_response(state, window, "quit"@).window_op is None,
{
}

/// Law: the "toggle-tray-icon" activation drives exactly the toggle
/// transition and the matching icon swap, and never exits.
pub proof fn lemma_toggle_tray_icon_transition(state: TrayState, window: Option<WindowInfo>)
    ensures
        spec_menu_click_response(state, window, "toggle-tray-icon"@).next_state
            == state.spec_toggle(),
        spec_menu_click_response(state, window, "toggle-tray-icon"@).icon_update
            == state.spec_toggle_icon(),
        spec_menu_click_response(state, window, "toggle-tray-icon"@).exit_code is None,
{
    reveal_strlit("quit");
    reveal_strlit("toggle-tray-icon");
    assert("quit"@.len() == 4);
    assert("toggle-tray-icon"@.len() == 16);
}

/// Toggle-item label that agrees with a visibility: the label names the
/// action that would reverse it.
pub open spec fn visibility_label(visible: bool) -> Seq<char> {
    if visible {
        "Hide Window"@
    } else {
        "Show Window"@
    }
}

/// Law: two successive "toggle-visibility" activations return the
/// window to its original visibility and the toggle item to its
/// original label, provided the label agreed with the visibility at the
/// start (as it does on the freshly built menu of a shown window).
pub proof fn lemma_toggle_visibility_round_trip(state: TrayState, visible: bool, label: Seq<char>)
    requires
        label == visibility_label(visible),
    ensures
        ({
            let r1 = spec_menu_click_response(
                state,
                Some(WindowInfo { visible }),
                "toggle-visibility"@,
            );
            let v1 = apply_window_op(visible, r1.window_op);
            let l1 = apply_label_update(label, r1.label_update);
            let r2 = spec_menu_click_response(
                r1.next_state,
                Some(WindowInfo { visible: v1 }),
                "toggle-visibility"@,
            );
            let v2 = apply_window_op(v1, r2.window_op);
            let l2 = apply_label_update(l1, r2.label_update);
            &&& v2 == visible
            &&& l2 == label
            &&& r2.next_state == state
        }),
{
}

/// One "toggle-visibility" activation inverts the visibility it saw.
pub proof fn lemma_toggle_visibility_inverts(state: TrayState, visible: bool)
    ensures
        apply_window_op(
            visible,
            spec_menu_click_response(
                state,
                Some(WindowInfo { visible }),
                "toggle-visibility"@,
            ).window_op,
        ) == !visible,
{
    reveal_strlit("quit");
    reveal_strlit("toggle-tray-icon");
    reveal_strlit("toggle-visibility");
    assert("quit"@.len() == 4);
    assert("toggle-tray-icon"@.len() == 16);
    assert("toggle-visibility"@.len() == 17);
}

/// The tray menu rebuilt for a language tag. The labels of the current
/// translation stub are the same for every tag: an unrecognized tag
/// falls back silently to the default texts, and the identifiers never
/// depend on the tag at all.
pub open spec fn sys_tray_menu_view(lang: Seq<char>) -> MenuView {
    MenuView {
        entries: seq![
            MenuEntryView::Submenu(
                SubmenuView {
                    label: "Sub Menu!"@,
                    entries: seq![
                        SubEntryView::Item(
                            MenuItemView {
                                id: "bf-sep"@,
                                label: "Before Separator"@,
                                accelerator: None,
                            },
                        ),
                        SubEntryView::Separator,
                        SubEntryView::Item(
                            MenuItemView {
                                id: "af-sep"@,
                                label: "After Separator"@,
                                accelerator: None,
                            },
                        ),
                    ],
                },
            ),
            MenuEntryView::Item(MenuItemView { id: "quit"@, label: "Quit"@, accelerator: None }),
            MenuEntryView::Item(
                MenuItemView { id: "toggle-visibility"@, label: "Hide Window"@, accelerator: None },
            ),
            MenuEntryView::Item(
                MenuItemView {
                    id: "toggle-tray-icon"@,
                    label: "Toggle the tray icon"@,
                    accelerator: None,
                },
            ),
        ],
    }
}

/// Law: rebuilding the menu for any language tag, recognized or not,
/// keeps every menu-item identifier; at most labels may differ.
pub proof fn lemma_menu_ids_language_independent(lang_a: Seq<char>, lang_b: Seq<char>)
    ensures
        menu_ids(sys_tray_menu_view(lang_a)) == menu_ids(sys_tray_menu_view(lang_b)),
{
}

/// Builds the tray menu for a language tag: one submenu of two items
/// around a separator, then the quit, visibility and icon-toggle items.
pub fn create_tray_menu(lang: String) -> (r: Menu)
    ensures
        r@ == sys_tray_menu_view(lang@),
{
    let mut sub_entries: Vec<SubEntry> = Vec::new();
    sub_entries.push(SubEntry::Item(MenuItem::new("bf-sep", "Before Separator")));
    sub_entries.push(SubEntry::Separator);
    sub_entries.push(SubEntry::Item(MenuItem::new("af-sep", "After Separator")));
    let submenu = Submenu { label: "Sub Menu!".to_owned(), entries: sub_entries };
    let mut entries: Vec<MenuEntry> = Vec::new();
    entries.push(MenuEntry::Submenu(submenu));
    entries.push(MenuEntry::Item(MenuItem::new("quit", "Quit")));
    entries.push(MenuEntry::Item(MenuItem::new("toggle-visibility", "Hide Window")));
    entries.push(MenuEntry::Item(MenuItem::new("toggle-tray-icon", "Toggle the tray icon")));
    let r = Menu { entries };
    proof {
        assert(r@ =~~= sys_tray_menu_view(lang@));
    }
    let _ = lang;
    r
}

/// The tray resource as registered at startup: a stable identifier and
/// the default-language menu.
pub struct SystemTrayDescriptor {
    pub id: String,
    pub menu: Menu,
}

pub fn create_system_tray() -> (r: SystemTrayDescriptor)
    ensures
        r.id@ == "main-tray"@,
        r.menu@ == sys_tray_menu_view("en"@),
{
    SystemTrayDescriptor { id: "main-tray".to_owned(), menu: create_tray_menu("en".to_owned()) }
}

/// Decides the menu swapped whole onto the tray resource when the
/// display language changes. Any tag is accepted.
pub fn tray_update_lang(lang: String) -> (r: Menu)
    ensures
        r@ == sys_tray_menu_view(lang@),
{
    create_tray_menu(lang)
}

} // verus!
