//! Delivery of text to the foreground application.
use vstd::prelude::*;

verus! {

/// Keystroke script that pastes the clipboard.
pub const PASTE_SCRIPT: &'static str =
    "tell application \"System Events\"\n    keystroke \"v\" using {command down}\nend tell";

/// Keystroke script that pastes the clipboard and then presses Return.
pub const PASTE_AND_ENTER_SCRIPT: &'static str =
    "tell application \"System Events\"\n    keystroke \"v\" using {command down}\n    delay 0.1\n    key code 36\nend tell";

/// Simulates paste keystrokes in the foreground application.
#[derive(Clone, Copy, Debug)]
pub struct ClipboardManager;

impl ClipboardManager {
    pub fn new() -> ClipboardManager {
        ClipboardManager
    }

    /// The keystroke script for a paste, with Return after it when `submit`.
    pub fn paste_script(&self, submit: bool) -> (r: &'static str)
        ensures
            r@ == if submit { PASTE_AND_ENTER_SCRIPT@ } else { PASTE_SCRIPT@ },
    {
        if submit {
            PASTE_AND_ENTER_SCRIPT
        } else {
            PASTE_SCRIPT
        }
    }
}

/// Serialised access to the paste automation.
pub struct ClipboardService {
    manager: ClipboardManager,
}

impl ClipboardService {
    pub fn new(manager: ClipboardManager) -> ClipboardService {
        ClipboardService { manager }
    }

    pub fn manager(&self) -> &ClipboardManager {
        &self.manager
    }
}

} // verus!
