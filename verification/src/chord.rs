//! Key chords and the numbers that identify them.

use vstd::prelude::*;

use crate::event::KeyCode;
use crate::event::KeyEvent;
use crate::event::KeyModifiers;

verus! {

/// A chord: a key together with the exact set of modifiers held with it.
///
/// Two chords are the same only if both the key and the whole set of
/// modifiers are: a chord without modifiers is not the chord of the same key
/// with Control.
#[derive(Debug, Clone, Copy, PartialEq, Eq, Hash, Structural)]
pub struct KeyWithModifiers {
    pub code: KeyCode,
    pub modifiers: KeyModifiers,
}

/// The number of a key: keys without a payload come first, then the function
/// keys, then the characters.
pub open spec fn code_number(code: KeyCode) -> int {
    match code {
        KeyCode::Backspace => 0,
        KeyCode::Enter => 1,
        KeyCode::Left => 2,
        KeyCode::Right => 3,
        KeyCode::Up => 4,
        KeyCode::Down => 5,
        KeyCode::Home => 6,
        KeyCode::End => 7,
        KeyCode::PageUp => 8,
        KeyCode::PageDown => 9,
        KeyCode::Tab => 10,
        KeyCode::BackTab => 11,
        KeyCode::Delete => 12,
        KeyCode::Insert => 13,
        KeyCode::Null => 14,
        KeyCode::Esc => 15,
        KeyCode::F(n) => 0x1_0000_0000 + n,
        KeyCode::Char(c) => 0x2_0000_0000 + c as u32,
    }
}

/// The number of a set of modifiers: one bit for each.
pub open spec fn modifiers_number(modifiers: KeyModifiers) -> int {
    (if modifiers.shift { 1int } else { 0 }) + (if modifiers.control { 2int } else { 0 }) + (
    if modifiers.alt { 4int } else { 0 })
}

impl KeyWithModifiers {
    /// The chord that a key press makes.
    pub open spec fn spec_of(event: KeyEvent) -> KeyWithModifiers {
        KeyWithModifiers { code: event.code, modifiers: event.modifiers }
    }

    /// The chord that a key press makes.
    #[verifier::when_used_as_spec(spec_of)]
    pub fn of(event: KeyEvent) -> (chord: KeyWithModifiers)
        ensures
            chord == Self::spec_of(event),
    {
        KeyWithModifiers { code: event.code, modifiers: event.modifiers }
    }

    /// The number that identifies the chord.
    pub open spec fn spec_number(&self) -> u64 {
        (code_number(self.code) * 8 + modifiers_number(self.modifiers)) as u64
    }

    /// The number that identifies the chord.
    #[verifier::when_used_as_spec(spec_number)]
    pub fn number(&self) -> (n: u64)
        ensures
            n == self.spec_number(),
    {
        let code: u64 = match self.code {
            KeyCode::Backspace => 0,
            KeyCode::Enter => 1,
            KeyCode::Left => 2,
            KeyCode::Right => 3,
            KeyCode::Up => 4,
            KeyCode::Down => 5,
            KeyCode::Home => 6,
            KeyCode::End => 7,
            KeyCode::PageUp => 8,
            KeyCode::PageDown => 9,
            KeyCode::Tab => 10,
            KeyCode::BackTab => 11,
            KeyCode::Delete => 12,
            KeyCode::Insert => 13,
            KeyCode::Null => 14,
            KeyCode::Esc => 15,
            KeyCode::F(n) => 0x1_0000_0000 + n as u64,
            KeyCode::Char(c) => 0x2_0000_0000 + c as u64,
        };
        let shift: u64 = if self.modifiers.shift { 1 } else { 0 };
        let control: u64 = if self.modifiers.control { 2 } else { 0 };
        let alt: u64 = if self.modifiers.alt { 4 } else { 0 };
        code * 8 + shift + control + alt
    }

    /// Distinct chords have distinct numbers.
    pub proof fn lemma_number_identifies(a: KeyWithModifiers, b: KeyWithModifiers)
        ensures
            a.number() == b.number() <==> a == b,
    {
        if a.number() == b.number() {
        }
    }
}

} // verus!
