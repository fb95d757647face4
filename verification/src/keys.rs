//! Key events as the host delivers them, and the chords the engine reserves.

use vstd::prelude::*;

verus! {

/// Modifier bit: a shift key is held.
pub const SHIFT_MASK: u32 = 0x1;

/// Modifier bit: caps lock is on.
pub const LOCK_MASK: u32 = 0x2;

/// Modifier bit: a control key is held.
pub const CONTROL_MASK: u32 = 0x4;

/// Modifier bit: the event reports a key release.
pub const RELEASE_MASK: u32 = 0x4000_0000;

/// Key identifier of the space bar.
pub const KEY_SPACE: u32 = 0x20;

/// Key identifier of the backspace key.
pub const KEY_BACKSPACE: u32 = 0xff08;

/// Key identifier of the left shift key.
pub const KEY_SHIFT_L: u32 = 0xffe1;

/// Key identifier of the right shift key.
pub const KEY_SHIFT_R: u32 = 0xffe2;

/// Key identifier of the left control key.
pub const KEY_CONTROL_L: u32 = 0xffe3;

/// Key identifier of the right control key.
pub const KEY_CONTROL_R: u32 = 0xffe4;

/// Key identifier of the caps lock key.
pub const KEY_CAPS_LOCK: u32 = 0xffe5;

/// Whether an event reports a key going down or coming up.
#[derive(Clone, Copy, Debug, PartialEq, Eq, Structural)]
pub enum KeyPhase {
    Press,
    Release,
}

/// One keyboard event: the key, the character it decodes to (if any), and
/// the modifier bit-set. The phase is carried by the release bit of the
/// modifiers.
#[derive(Clone, Copy, Debug)]
pub struct KeyEvent {
    pub code: u32,
    pub character: Option<char>,
    pub modifiers: u32,
}

/// What a key event means to the preprocessor: an editing key, a modifier
/// that leaves the buffer alone, a character to compose with, or anything
/// else, which ends the current composition.
#[derive(Clone, Copy, Debug, PartialEq, Eq, Structural)]
pub enum KeyStroke {
    Backspace,
    CapsLock,
    Shift,
    Character(char),
    Unidentified,
}

impl KeyEvent {
    /// The release bit of the modifiers is set.
    pub open spec fn is_release(self) -> bool {
        self.modifiers & RELEASE_MASK != 0
    }

    /// A control key pressed while control is the only modifier held.
    pub open spec fn is_toggle_chord(self) -> bool {
        (self.code == KEY_CONTROL_L || self.code == KEY_CONTROL_R) && self.modifiers
            == CONTROL_MASK
    }

    /// Left shift pressed while control is the only modifier held.
    pub open spec fn is_page_up_chord(self) -> bool {
        self.code == KEY_SHIFT_L && self.modifiers == CONTROL_MASK
    }

    /// Right shift pressed while control is the only modifier held.
    pub open spec fn is_page_down_chord(self) -> bool {
        self.code == KEY_SHIFT_R && self.modifiers == CONTROL_MASK
    }

    /// Space pressed while control is the only modifier held.
    pub open spec fn is_confirm_chord(self) -> bool {
        self.code == KEY_SPACE && self.modifiers == CONTROL_MASK
    }

    /// A key that decodes to no character and is not the backspace key:
    /// a bare modifier, or a key the engine has no use for.
    pub open spec fn is_bare_functional(self) -> bool {
        self.character is None && self.code != KEY_BACKSPACE
    }

    pub fn new(code: u32, character: Option<char>, modifiers: u32) -> (event: KeyEvent)
        ensures
            event.code == code,
            event.character == character,
            event.modifiers == modifiers,
    {
        KeyEvent { code, character, modifiers }
    }

    /// The phase that the release bit stands for.
    pub fn phase(&self) -> (phase: KeyPhase)
        ensures
            phase == (if self.is_release() {
                KeyPhase::Release
            } else {
                KeyPhase::Press
            }),
    {
        if self.modifiers & RELEASE_MASK != 0 {
            KeyPhase::Release
        } else {
            KeyPhase::Press
        }
    }
}

} // verus!
