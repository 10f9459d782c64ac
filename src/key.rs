//! Key presses, as the tracker sees them.

use vstd::prelude::*;

verus! {

/// The logical identity of a pressed key.
#[derive(Clone, Copy, Debug, PartialEq, Eq, Hash, Structural)]
pub enum Key {
    /// A printable character.
    Char(char),
    Enter,
    Esc,
    Backspace,
    Delete,
    Left,
    Right,
    Up,
    Down,
    /// Any key the tracker has no use for.
    Other,
}

/// A key press: the key, and whether the control modifier was held.
#[derive(Clone, Copy, Debug, PartialEq, Eq, Hash, Structural)]
pub struct KeyEvent {
    pub code: Key,
    pub control: bool,
}

impl KeyEvent {
    /// A key press without modifiers.
    pub fn plain(code: Key) -> (r: KeyEvent)
        ensures
            r == (KeyEvent { code, control: false }),
    {
        KeyEvent { code, control: false }
    }

    /// A key press with the control modifier held.
    pub fn with_control(code: Key) -> (r: KeyEvent)
        ensures
            r == (KeyEvent { code, control: true }),
    {
        KeyEvent { code, control: true }
    }
}

} // verus!
