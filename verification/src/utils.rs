//! From a key event of the host to a key stroke for the preprocessor.

use vstd::prelude::*;
use crate::keys::{KeyStroke, KEY_BACKSPACE, KEY_CAPS_LOCK, KEY_SHIFT_L, KEY_SHIFT_R};

verus! {

/// Whether `char::is_alphanumeric` holds of a character.
pub uninterp spec fn alphanumeric(c: char) -> bool;

/// `char::is_alphanumeric`.
#[verifier::external_body]
pub(crate) fn is_alphanumeric(c: char) -> (yes: bool)
    ensures
        yes == alphanumeric(c),
{
    c.is_alphanumeric()
}

/// The ASCII punctuation characters: `!` to `/`, `:` to `@`, `[` to `` ` ``
/// and `{` to `~`.
pub open spec fn ascii_punctuation(c: char) -> bool {
    let n = c as u32;
    0x21 <= n <= 0x2f || 0x3a <= n <= 0x40 || 0x5b <= n <= 0x60 || 0x7b <= n <= 0x7e
}

/// Whether a character is ASCII punctuation.
pub fn is_ascii_punctuation(c: char) -> (yes: bool)
    ensures
        yes == ascii_punctuation(c),
{
    let n: u32 = c as u32;
    (0x21 <= n && n <= 0x2f) || (0x3a <= n && n <= 0x40) || (0x5b <= n && n <= 0x60) || (0x7b
        <= n && n <= 0x7e)
}

/// The characters that take part in a composition: letters, digits and
/// ASCII punctuation.
pub open spec fn composes(c: char) -> bool {
    alphanumeric(c) || ascii_punctuation(c)
}

/// The key stroke that a key and its character stand for. Backspace, caps
/// lock and the shift keys go by their key; any other key goes by its
/// character, and is unidentified if it has none or one that does not
/// compose.
pub open spec fn keystroke(keyval: u32, character: Option<char>) -> KeyStroke {
    if keyval == KEY_BACKSPACE {
        KeyStroke::Backspace
    } else if keyval == KEY_CAPS_LOCK {
        KeyStroke::CapsLock
    } else if keyval == KEY_SHIFT_L || keyval == KEY_SHIFT_R {
        KeyStroke::Shift
    } else {
        match character {
            Some(c) => if composes(c) {
                KeyStroke::Character(c)
            } else {
                KeyStroke::Unidentified
            },
            None => KeyStroke::Unidentified,
        }
    }
}

/// Converts a key of the host, with the character it decodes to, into a key
/// stroke for the preprocessor.
pub fn ibus_keypress_event_to_afrim_key_event(keyval: u32, character: Option<char>) -> (stroke:
    KeyStroke)
    ensures
        stroke == keystroke(keyval, character),
{
    if keyval == KEY_BACKSPACE {
        KeyStroke::Backspace
    } else if keyval == KEY_CAPS_LOCK {
        KeyStroke::CapsLock
    } else if keyval == KEY_SHIFT_L || keyval == KEY_SHIFT_R {
        KeyStroke::Shift
    } else {
        match character {
            Some(c) => if is_alphanumeric(c) || is_ascii_punctuation(c) {
                KeyStroke::Character(c)
            } else {
                KeyStroke::Unidentified
            },
            None => KeyStroke::Unidentified,
        }
    }
}

} // verus!
