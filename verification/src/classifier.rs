//! What a key event asks of the engine.

use vstd::prelude::*;
use crate::keys::{
    KeyEvent, CONTROL_MASK, KEY_BACKSPACE, KEY_CONTROL_L, KEY_CONTROL_R, KEY_SHIFT_L, KEY_SHIFT_R,
    KEY_SPACE, RELEASE_MASK,
};

verus! {

/// A direction in the candidate list.
#[derive(Clone, Copy, Debug, PartialEq, Eq, Structural)]
pub enum Navigation {
    Up,
    Down,
}

/// The meaning of one key event.
#[derive(Clone, Copy, Debug, PartialEq, Eq, Structural)]
pub enum Action {
    /// Flip between idle and active.
    ToggleIdle,
    /// Do nothing.
    Ignore,
    /// Move the highlight in the candidate list.
    Navigate(Navigation),
    /// Commit the highlighted candidate.
    Confirm,
    /// Carry out what the preprocessor has queued.
    DrainCommands,
    /// Hand the event to the preprocessor.
    Forward,
}

/// The action for an event. The toggle chord comes first, so that idle mode
/// can always be left; while idle, everything else is ignored.
pub open spec fn classify_spec(event: KeyEvent, idle: bool) -> Action {
    if event.is_toggle_chord() {
        Action::ToggleIdle
    } else if idle {
        Action::Ignore
    } else if event.is_page_up_chord() {
        Action::Navigate(Navigation::Up)
    } else if event.is_page_down_chord() {
        Action::Navigate(Navigation::Down)
    } else if event.is_confirm_chord() {
        Action::Confirm
    } else if event.is_release() {
        Action::DrainCommands
    } else if event.is_bare_functional() {
        Action::Ignore
    } else {
        Action::Forward
    }
}

/// Classifies one key event, given whether the engine is idle.
pub fn classify(event: &KeyEvent, current_idle: bool) -> (action: Action)
    ensures
        action == classify_spec(*event, current_idle),
{
    let control_only = event.modifiers == CONTROL_MASK;
    if control_only && (event.code == KEY_CONTROL_L || event.code == KEY_CONTROL_R) {
        Action::ToggleIdle
    } else if current_idle {
        Action::Ignore
    } else if control_only && event.code == KEY_SHIFT_L {
        Action::Navigate(Navigation::Up)
    } else if control_only && event.code == KEY_SHIFT_R {
        Action::Navigate(Navigation::Down)
    } else if control_only && event.code == KEY_SPACE {
        Action::Confirm
    } else if event.modifiers & RELEASE_MASK != 0 {
        Action::DrainCommands
    } else if event.character.is_none() && event.code != KEY_BACKSPACE {
        Action::Ignore
    } else {
        Action::Forward
    }
}

} // verus!
