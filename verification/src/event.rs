//! Input events, as far as the editor tells them apart.

use vstd::prelude::*;

verus! {

/// The key of a key event.
#[derive(Clone, Copy, Debug, PartialEq, Eq, Structural)]
pub enum KeyCode {
    Backspace,
    Enter,
    Left,
    Right,
    Up,
    Down,
    Tab,
    BackTab,
    Esc,
    /// A character key, with the character it produces.
    Char(char),
    /// Any key that the editor has no use for.
    Other,
}

/// What happened to the key.
#[derive(Clone, Copy, Debug, PartialEq, Eq, Structural)]
pub enum KeyEventKind {
    Press,
    Repeat,
    Release,
}

/// A key event: the key, whether Control was held, and what happened to the
/// key.
#[derive(Clone, Copy, Debug, PartialEq, Eq, Structural)]
pub struct KeyEvent {
    pub code: KeyCode,
    pub control: bool,
    pub kind: KeyEventKind,
}

/// An input event.
#[derive(Clone, Copy, Debug, PartialEq, Eq, Structural)]
pub enum Event {
    Key(KeyEvent),
    /// Anything but a key event: the mouse, a resize, a paste.
    Other,
}

impl KeyEvent {
    /// The press of a key without Control.
    pub fn press(code: KeyCode) -> (key: Self)
        ensures
            key == (KeyEvent { code, control: false, kind: KeyEventKind::Press }),
    {
        KeyEvent { code, control: false, kind: KeyEventKind::Press }
    }

    /// The press of a key with Control held.
    pub fn press_with_control(code: KeyCode) -> (key: Self)
        ensures
            key == (KeyEvent { code, control: true, kind: KeyEventKind::Press }),
    {
        KeyEvent { code, control: true, kind: KeyEventKind::Press }
    }
}

} // verus!
