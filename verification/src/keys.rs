//! Structured key input, as the host delivers it.
//!
//! The host reads raw terminal input and hands the library one event per
//! key: a code, the modifier set, and whether the key went down, repeated,
//! or was released. Only presses and repeats ever produce bytes or actions.

use vstd::prelude::*;

verus! {

/// Which key an input event names.
#[derive(Clone, Copy, Debug, PartialEq, Eq, Structural)]
pub enum KeyCode {
    Char(char),
    F(u8),
    Enter,
    Backspace,
    Tab,
    Delete,
    Insert,
    Home,
    End,
    PageUp,
    PageDown,
    Up,
    Down,
    Left,
    Right,
    Esc,
    Other,
}

/// Whether the key went down, auto-repeated, or was released.
#[derive(Clone, Copy, Debug, PartialEq, Eq, Structural)]
pub enum KeyEventKind {
    Press,
    Repeat,
    Release,
}

/// One key input event with its modifier set.
#[derive(Clone, Copy, Debug, PartialEq, Eq, Structural)]
pub struct KeyEvent {
    pub code: KeyCode,
    pub ctrl: bool,
    pub alt: bool,
    pub shift: bool,
    pub kind: KeyEventKind,
}

impl KeyEvent {
    /// Whether the event is a press or a repeat; releases produce nothing.
    pub open spec fn is_press_or_repeat(&self) -> bool {
        self.kind is Press || self.kind is Repeat
    }

    /// A plain key press without modifiers.
    pub fn press(code: KeyCode) -> (r: Self)
        ensures
            r == (KeyEvent {
                code,
                ctrl: false,
                alt: false,
                shift: false,
                kind: KeyEventKind::Press,
            }),
    {
        KeyEvent { code, ctrl: false, alt: false, shift: false, kind: KeyEventKind::Press }
    }
}

} // verus!
