//! From an input event and a table of bindings to an action.
//!
//! Resolution reads the table and changes nothing. A key press is looked up
//! under its exact chord. A key that is bound to nothing types its character
//! if it is a character key, and asks for nothing otherwise: no action stands
//! in for keys such as an unbound function key. Mouse buttons have fixed
//! meanings that no table can change.

use vstd::prelude::*;

use crate::chord::KeyWithModifiers;
use crate::config::Action;
use crate::event::Event;
use crate::event::KeyCode;
use crate::event::KeyEvent;
use crate::event::MouseButton;
use crate::event::MouseEvent;

verus! {

/// What an event comes to.
#[derive(Debug, Clone, Copy, PartialEq, Eq, Hash, Structural)]
pub enum Resolution {
    /// The event asks for this action.
    Act(Action),
    /// A key press that is bound to nothing and types no character. It asks
    /// for no action and deserves a warning.
    UnboundKey(KeyEvent),
    /// An event that has no meaning here. It asks for no action and deserves
    /// a warning.
    Unexpected(Event),
}

impl Resolution {
    /// The action asked for, if any.
    pub open spec fn spec_action(self) -> Option<Action> {
        match self {
            Resolution::Act(action) => Some(action),
            _ => None,
        }
    }

    /// The action asked for, if any.
    #[verifier::when_used_as_spec(spec_action)]
    pub fn action(self) -> (action: Option<Action>)
        ensures
            action == self.spec_action(),
    {
        match self {
            Resolution::Act(action) => Some(action),
            _ => None,
        }
    }

    /// Whether the caller should warn of the event.
    pub open spec fn spec_warns(self) -> bool {
        !(self is Act)
    }

    /// Whether the caller should warn of the event.
    #[verifier::when_used_as_spec(spec_warns)]
    pub fn warns(self) -> (warn: bool)
        ensures
            warn == self.spec_warns(),
    {
        match self {
            Resolution::Act(_) => false,
            _ => true,
        }
    }
}

/// What the key press `key` comes to under `table`: the action its chord is
/// bound to; failing that, the character it types; failing that, nothing.
pub open spec fn resolve_key(table: Map<KeyWithModifiers, Action>, key: KeyEvent) -> Resolution {
    let chord = KeyWithModifiers::of(key);
    if table.contains_key(chord) {
        Resolution::Act(table[chord])
    } else {
        match key.code {
            KeyCode::Char(c) => Resolution::Act(Action::Char(c)),
            _ => Resolution::UnboundKey(key),
        }
    }
}

/// What the mouse event `mouse` asks for, if anything: a click where the left
/// or the right button goes down, a release where any button comes up.
pub open spec fn mouse_action(mouse: MouseEvent) -> Option<Action> {
    match mouse {
        MouseEvent::Down(MouseButton::Right, x, y, _) => Some(Action::RightClick(x, y)),
        MouseEvent::Down(MouseButton::Left, x, y, _) => Some(Action::LeftClick(x, y)),
        MouseEvent::Up(_, x, y, _) => Some(Action::Release(x, y)),
        _ => None,
    }
}

/// What `event` comes to under `table`.
pub open spec fn resolution(table: Map<KeyWithModifiers, Action>, event: Event) -> Resolution {
    match event {
        Event::Key(key) => resolve_key(table, key),
        Event::Mouse(mouse) => match mouse_action(mouse) {
            Some(action) => Resolution::Act(action),
            None => Resolution::Unexpected(event),
        },
        _ => Resolution::Unexpected(event),
    }
}

/// The action that `event` asks for under `table`, if any.
pub open spec fn resolve(table: Map<KeyWithModifiers, Action>, event: Event) -> Option<Action> {
    resolution(table, event).action()
}

} // verus!
