//! Core logic of a desktop tray-application shell.
//!
//! The library holds the decision logic of the shell: the tray playback
//! state machine and its menu, the single-instance launch decision, the
//! heartbeat tick, and the file-manager reveal plan. The surrounding GUI
//! framework, window handles and process plumbing live outside the
//! library and only feed plain values in and carry the decided effects
//! out.

use vstd::prelude::*;

pub mod events;
pub mod menu;
pub mod shell_reveal;
pub mod singleton;
pub mod sys_tray;
pub mod tray_icon;
pub mod utils;

verus! {

/// Placeholder file-processing command: acknowledges the request with a
/// fixed reply. The caller is responsible for any logging of the path.
pub fn process_file(filepath: String) -> (r: String)
    ensures
        r@ == "Hello from Rust!"@,
{
    let _ = filepath;
    "Hello from Rust!".to_owned()
}

} // verus!
