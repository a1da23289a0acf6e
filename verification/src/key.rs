//! Decoded keyboard events, as the terminal layer hands them to the
//! application.

use vstd::prelude::*;

verus! {

/// No modifier key held.
pub const MODIFIER_NONE: u8 = 0;

/// The shift key.
pub const MODIFIER_SHIFT: u8 = 1;

/// The control key.
pub const MODIFIER_CONTROL: u8 = 2;

/// The alt key.
pub const MODIFIER_ALT: u8 = 4;

/// The key that was pressed. Keys the application has no binding for are
/// all `Other`.
#[derive(Debug, Clone, Copy, PartialEq, Eq, Structural)]
pub enum KeyCode {
    Backspace,
    Enter,
    Left,
    Right,
    Up,
    Down,
    Tab,
    Esc,
    Char(char),
    Other,
}

/// Whether the key went down, is held, or came up.
#[derive(Debug, Clone, Copy, PartialEq, Eq, Structural)]
pub enum KeyEventKind {
    Press,
    Repeat,
    Release,
}

/// One keyboard event: the key, the modifiers held with it as a bit set of
/// the `MODIFIER_*` constants, and the kind of event.
#[derive(Debug, Clone, Copy, PartialEq, Eq, Structural)]
pub struct KeyEvent {
    pub code: KeyCode,
    pub modifiers: u8,
    pub kind: KeyEventKind,
}

impl KeyEvent {
    /// A press of `code` with `modifiers` held.
    pub fn new(code: KeyCode, modifiers: u8) -> (event: Self)
        ensures
            event == (KeyEvent { code, modifiers, kind: KeyEventKind::Press }),
    {
        KeyEvent { code, modifiers, kind: KeyEventKind::Press }
    }

    /// Whether this is the quit chord: `q` with control, and nothing else,
    /// held.
    pub open spec fn is_quit(self) -> bool {
        self.modifiers == MODIFIER_CONTROL && self.code == KeyCode::Char('q')
    }

    /// Decides `is_quit`.
    pub fn quits(&self) -> (b: bool)
        ensures
            b == self.is_quit(),
    {
        self.modifiers == MODIFIER_CONTROL && match self.code {
            KeyCode::Char(c) => c == 'q',
            _ => false,
        }
    }
}

/// A plain press of the character key `c`.
pub fn char_to_key_event(c: char) -> (event: KeyEvent)
    ensures
        event == (KeyEvent { code: KeyCode::Char(c), modifiers: MODIFIER_NONE, kind: KeyEventKind::Press }),
{
    KeyEvent::new(KeyCode::Char(c), MODIFIER_NONE)
}

} // verus!
