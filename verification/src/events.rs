//! Shared vocabulary of the tray event handlers: what the shell knows of
//! the main window when an event arrives, and the window-level effects a
//! handler can decide on.

use vstd::prelude::*;

verus! {

/// What the handler was told about the main window at the moment an
/// event is dispatched. `None` at the call site means the window could
/// not be found (closed or not yet created); operations on it are then
/// skipped rather than failed.
#[derive(Clone, Copy, PartialEq, Eq, Structural, Debug)]
pub struct WindowInfo {
    /// Whether the window is currently shown.
    pub visible: bool,
}

/// A visibility change decided by a handler. The surrounding shell
/// performs it on the real window; a failure there drops the change.
#[derive(Clone, Copy, PartialEq, Eq, Structural, Debug)]
pub enum WindowOp {
    Show,
    Hide,
}

/// Which image asset is bound to the tray resource.
#[derive(Clone, Copy, PartialEq, Eq, Structural, Debug)]
pub enum IconAsset {
    /// The resting icon, shown while nothing is playing.
    Idle,
    /// The highlighted icon, shown while playing.
    Active,
}

/// Visibility that results from carrying out a decided window operation.
pub open spec fn apply_window_op(visible: bool, op: Option<WindowOp>) -> bool {
    match op {
        Some(WindowOp::Show) => true,
        Some(WindowOp::Hide) => false,
        None => visible,
    }
}

/// Menu-item label that results from carrying out a decided label update.
pub open spec fn apply_label_update(label: Seq<char>, update: Option<Seq<char>>) -> Seq<char> {
    match update {
        Some(new_label) => new_label,
        None => label,
    }
}

} // verus!
