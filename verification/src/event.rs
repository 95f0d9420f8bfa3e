//! Input events as plain values: what a terminal reports of a key press or a
//! mouse button, stripped of everything but the data.

use vstd::prelude::*;

verus! {

/// A key of the keyboard.
#[derive(Debug, Clone, Copy, PartialEq, Eq, Hash, Structural)]
pub enum KeyCode {
    Backspace,
    Enter,
    Left,
    Right,
    Up,
    Down,
    Home,
    End,
    PageUp,
    PageDown,
    Tab,
    /// Shift and Tab together.
    BackTab,
    Delete,
    Insert,
    /// A function key: `F(1)` is F1.
    F(u8),
    /// A character key.
    Char(char),
    Null,
    Esc,
}

/// The set of modifier keys held down while a key or button is pressed.
#[derive(Debug, Clone, Copy, PartialEq, Eq, Hash, Structural)]
pub struct KeyModifiers {
    pub shift: bool,
    pub control: bool,
    pub alt: bool,
}

impl KeyModifiers {
    /// The empty set of modifiers.
    pub open spec fn spec_empty() -> KeyModifiers {
        KeyModifiers { shift: false, control: false, alt: false }
    }

    /// Shift alone.
    pub open spec fn spec_shift() -> KeyModifiers {
        KeyModifiers { shift: true, control: false, alt: false }
    }

    /// Control alone.
    pub open spec fn spec_control() -> KeyModifiers {
        KeyModifiers { shift: false, control: true, alt: false }
    }

    /// Alt alone.
    pub open spec fn spec_alt() -> KeyModifiers {
        KeyModifiers { shift: false, control: false, alt: true }
    }

    /// The empty set of modifiers.
    #[verifier::when_used_as_spec(spec_empty)]
    pub fn empty() -> (m: KeyModifiers)
        ensures
            m == Self::spec_empty(),
    {
        KeyModifiers { shift: false, control: false, alt: false }
    }

    /// Shift alone.
    #[verifier::when_used_as_spec(spec_shift)]
    pub fn shift() -> (m: KeyModifiers)
        ensures
            m == Self::spec_shift(),
    {
        KeyModifiers { shift: true, control: false, alt: false }
    }

    /// Control alone.
    #[verifier::when_used_as_spec(spec_control)]
    pub fn control() -> (m: KeyModifiers)
        ensures
            m == Self::spec_control(),
    {
        KeyModifiers { shift: false, control: true, alt: false }
    }

    /// Alt alone.
    #[verifier::when_used_as_spec(spec_alt)]
    pub fn alt() -> (m: KeyModifiers)
        ensures
            m == Self::spec_alt(),
    {
        KeyModifiers { shift: false, control: false, alt: true }
    }
}

/// A key press: the key and the exact set of modifiers held with it.
#[derive(Debug, Clone, Copy, PartialEq, Eq, Hash, Structural)]
pub struct KeyEvent {
    pub code: KeyCode,
    pub modifiers: KeyModifiers,
}

/// A mouse button.
#[derive(Debug, Clone, Copy, PartialEq, Eq, Hash, Structural)]
pub enum MouseButton {
    Left,
    Right,
    Middle,
}

/// What the mouse did, at which column and row, and under which modifiers.
#[derive(Debug, Clone, Copy, PartialEq, Eq, Hash, Structural)]
pub enum MouseEvent {
    /// A button was pressed.
    Down(MouseButton, u16, u16, KeyModifiers),
    /// A button was released.
    Up(MouseButton, u16, u16, KeyModifiers),
    /// The pointer moved while a button was held.
    Drag(MouseButton, u16, u16, KeyModifiers),
    ScrollDown(u16, u16, KeyModifiers),
    ScrollUp(u16, u16, KeyModifiers),
}

/// One input event.
#[derive(Debug, Clone, Copy, PartialEq, Eq, Hash, Structural)]
pub enum Event {
    Key(KeyEvent),
    Mouse(MouseEvent),
    /// The terminal was resized to this many columns and rows.
    Resize(u16, u16),
}

} // verus!
