//! Keyboard and terminal events as the session logic sees them.
//!
//! Every front end (a decoded network byte stream, a local console) hands its
//! input over in these types, so the state machines never depend on where a
//! key came from.

use vstd::prelude::*;

verus! {

/// The key that was pressed.
#[derive(Clone, Copy, Debug, PartialEq, Eq, Structural)]
pub enum KeyCode {
    /// A printable character.
    Char(char),
    Backspace,
    Enter,
    Left,
    Right,
    Up,
    Down,
    Esc,
    Tab,
    /// A function key, `F(1)` for F1.
    F(u8),
    /// Any key the session logic has no use for.
    Null,
}

/// The modifier keys held down together with a key.
#[derive(Clone, Copy, Debug, PartialEq, Eq, Structural)]
pub struct KeyModifiers {
    pub shift: bool,
    pub control: bool,
    pub alt: bool,
}

impl KeyModifiers {
    /// No modifier held.
    pub fn empty() -> (m: KeyModifiers)
        ensures
            m == (KeyModifiers { shift: false, control: false, alt: false }),
    {
        KeyModifiers { shift: false, control: false, alt: false }
    }

    /// Shift alone.
    pub fn shift() -> (m: KeyModifiers)
        ensures
            m == (KeyModifiers { shift: true, control: false, alt: false }),
    {
        KeyModifiers { shift: true, control: false, alt: false }
    }

    /// Control alone.
    pub fn control() -> (m: KeyModifiers)
        ensures
            m == (KeyModifiers { shift: false, control: true, alt: false }),
    {
        KeyModifiers { shift: false, control: true, alt: false }
    }

    /// Alt alone.
    pub fn alt() -> (m: KeyModifiers)
        ensures
            m == (KeyModifiers { shift: false, control: false, alt: true }),
    {
        KeyModifiers { shift: false, control: false, alt: true }
    }
}

/// Whether a key went down, is held, or came up.
#[derive(Clone, Copy, Debug, PartialEq, Eq, Structural)]
pub enum KeyEventKind {
    Press,
    Repeat,
    Release,
}

/// One keyboard event.
#[derive(Clone, Copy, Debug, PartialEq, Eq, Structural)]
pub struct KeyEvent {
    pub code: KeyCode,
    pub modifiers: KeyModifiers,
    pub kind: KeyEventKind,
}

impl KeyEvent {
    /// A key press with the given modifiers.
    pub fn new(code: KeyCode, modifiers: KeyModifiers) -> (key: KeyEvent)
        ensures
            key == (KeyEvent { code, modifiers, kind: KeyEventKind::Press }),
    {
        KeyEvent { code, modifiers, kind: KeyEventKind::Press }
    }

    /// A press of `code` with no modifier held.
    pub fn plain(code: KeyCode) -> (key: KeyEvent)
        ensures
            key == (KeyEvent {
                code,
                modifiers: KeyModifiers { shift: false, control: false, alt: false },
                kind: KeyEventKind::Press,
            }),
    {
        KeyEvent { code, modifiers: KeyModifiers::empty(), kind: KeyEventKind::Press }
    }
}

/// An event of a local console.
#[derive(Clone, Copy, Debug, PartialEq, Eq, Structural)]
pub enum Event {
    Key(KeyEvent),
    Mouse,
    /// The console now has this many columns and rows.
    Resize(u16, u16),
    /// Focus changes, pastes and whatever else a console may report.
    Other,
}

} // verus!
