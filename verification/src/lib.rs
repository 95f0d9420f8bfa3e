//! Key bindings for a terminal application: from raw input events to actions.
//!
//! A [`Config`] is a table from key chords to [`Action`]s. It starts as the
//! built-in table, may be overridden by the text of a keyfile, and then
//! resolves each input [`Event`] to at most one action.
//!
//! The library reads no file and no terminal: it is handed the text of the
//! keyfile and the events as plain values. Its functions are specified over
//! mathematical models (a table is a `Map` from chords to actions, a text a
//! `Seq` of characters), and the module `laws` proves what follows for the
//! library as a whole.

pub mod chord;
pub mod colors;
pub mod config;
pub mod event;
pub mod keyfile;
pub mod laws;
pub mod resolve;
pub mod text;

pub use crate::chord::KeyWithModifiers;
pub use crate::colors::random_fg_color;
pub use crate::config::to_action;
pub use crate::config::to_key;
pub use crate::config::Action;
pub use crate::config::Config;
pub use crate::event::Event;
pub use crate::event::KeyCode;
pub use crate::event::KeyEvent;
pub use crate::event::KeyModifiers;
pub use crate::event::MouseButton;
pub use crate::event::MouseEvent;
pub use crate::keyfile::Directive;
pub use crate::keyfile::SyntaxError;
pub use crate::keyfile::SyntaxErrorKind;
pub use crate::resolve::Resolution;
