//! The keyfile format: one binding per line, `action: key`.
//!
//! A keyfile overrides bindings of the built-in table. It is read line by
//! line; blank lines and comments, which start with `#`, are passed over.
//! The first malformed line stops the load and is reported with its number
//! and its text.

use vstd::prelude::*;
use vstd::slice::slice_subrange;

use crate::chord::KeyWithModifiers;
use crate::config::action_named;
use crate::config::action_of_token;
use crate::config::default_bindings;
use crate::config::key_named;
use crate::config::key_of_token;
use crate::config::Action;
use crate::event::KeyModifiers;
use crate::text::decimal;
use crate::text::decimal_text;
use crate::text::find;
use crate::text::split_lines;
use crate::text::trim;
use crate::text::trim_start;
use crate::text::trimmed;
use crate::text::trimmed_start;

verus! {

/// Why a line of a keyfile is malformed.
#[derive(Debug, Clone, Copy, PartialEq, Eq, Hash, Structural)]
pub enum SyntaxErrorKind {
    /// The line has no colon.
    MissingSeparator,
    /// What stands before the colon names no action.
    UnknownAction,
    /// The action is known, but what stands after the colon names no key.
    UnknownKey,
}

/// What one line of a keyfile asks for.
#[derive(Debug, Clone, Copy, PartialEq, Eq, Hash, Structural)]
pub enum Directive {
    /// Nothing: the line is blank or a comment.
    Skip,
    /// Bind the chord to the action.
    Bind(KeyWithModifiers, Action),
    /// The line cannot be read.
    Malformed(SyntaxErrorKind),
}

/// Whether `line` is blank or a comment: nothing but whitespace, or a `#`
/// after nothing but whitespace.
pub open spec fn is_skipped(line: Seq<char>) -> bool {
    trim_start(line).len() == 0 || trim_start(line)[0] == '#'
}

/// The meaning of one line.
///
/// A blank line and a comment are skipped. Any other line is split at its
/// first colon into an action token and a key token, each trimmed of
/// surrounding whitespace. The chord it binds never carries a modifier.
pub open spec fn line_directive(line: Seq<char>) -> Directive {
    if is_skipped(line) {
        Directive::Skip
    } else {
        match line.index_of_first(':') {
            None => Directive::Malformed(SyntaxErrorKind::MissingSeparator),
            Some(colon) => match action_named(trim(line.take(colon))) {
                None => Directive::Malformed(SyntaxErrorKind::UnknownAction),
                Some(action) => match key_named(trim(line.skip(colon + 1))) {
                    None => Directive::Malformed(SyntaxErrorKind::UnknownKey),
                    Some(code) => Directive::Bind(
                        KeyWithModifiers { code, modifiers: KeyModifiers::empty() },
                        action,
                    ),
                },
            },
        }
    }
}

/// Reads one line of a keyfile.
pub fn parse_line(line: &[char]) -> (directive: Directive)
    ensures
        directive == line_directive(line@),
{
    let body = trimmed_start(line);
    if body.len() == 0 || body[0] == '#' {
        return Directive::Skip;
    }
    match find(line, ':') {
        None => Directive::Malformed(SyntaxErrorKind::MissingSeparator),
        Some(colon) => {
            assert(colon < line.len()) by {
                line@.index_of_first_ensures(':');
            }
            let raw_action = trimmed(slice_subrange(line, 0, colon));
            let raw_key = trimmed(slice_subrange(line, colon + 1, line.len()));
            match action_of_token(raw_action) {
                None => Directive::Malformed(SyntaxErrorKind::UnknownAction),
                Some(action) => match key_of_token(raw_key) {
                    None => Directive::Malformed(SyntaxErrorKind::UnknownKey),
                    Some(code) => Directive::Bind(
                        KeyWithModifiers { code, modifiers: KeyModifiers::empty() },
                        action,
                    ),
                },
            }
        },
    }
}

/// A malformed line of a keyfile.
#[derive(Debug, PartialEq, Eq)]
pub struct SyntaxError {
    /// The number of the line in the keyfile, counted from 1.
    pub line_number: usize,
    /// The whole line, as the keyfile has it.
    pub line: String,
    /// What is wrong with it.
    pub kind: SyntaxErrorKind,
}

/// A [`SyntaxError`] as a mathematical value.
pub ghost struct SyntaxFault {
    pub line_number: nat,
    pub line: Seq<char>,
    pub kind: SyntaxErrorKind,
}

impl View for SyntaxError {
    type V = SyntaxFault;

    open spec fn view(&self) -> SyntaxFault {
        SyntaxFault { line_number: self.line_number as nat, line: self.line@, kind: self.kind }
    }
}

impl Clone for SyntaxError {
    /// The same error.
    fn clone(&self) -> (copy: SyntaxError)
        ensures
            copy@ == self@,
    {
        SyntaxError { line_number: self.line_number, line: self.line.clone(), kind: self.kind }
    }
}

/// The message that reports `fault` to the user.
pub open spec fn message_text(fault: SyntaxFault) -> Seq<char> {
    match fault.kind {
        SyntaxErrorKind::MissingSeparator => "No colon found on line "@ + decimal(
            fault.line_number,
        ),
        _ => "invalid config at line "@ + decimal(fault.line_number) + ": "@ + fault.line,
    }
}

impl SyntaxError {
    /// The message that reports the error to the user.
    pub fn message(&self) -> (text: String)
        ensures
            text@ == message_text(self@),
    {
        let number = decimal_text(self.line_number);
        match self.kind {
            SyntaxErrorKind::MissingSeparator => {
                let mut text = "No colon found on line ".to_owned();
                text.append(number.as_str());
                text
            },
            _ => {
                let mut text = "invalid config at line ".to_owned();
                text.append(number.as_str());
                text.append(": ");
                text.append(self.line.as_str());
                text
            },
        }
    }
}

/// `table` after the bindings of `lines` were made in order, a later one
/// replacing an earlier one for the same chord. Lines that bind nothing leave
/// the table as it is.
pub open spec fn apply_lines(
    lines: Seq<Seq<char>>,
    table: Map<KeyWithModifiers, Action>,
) -> Map<KeyWithModifiers, Action>
    decreases lines.len(),
{
    if lines.len() == 0 {
        table
    } else {
        let before = apply_lines(lines.drop_last(), table);
        match line_directive(lines.last()) {
            Directive::Bind(chord, action) => before.insert(chord, action),
            _ => before,
        }
    }
}

/// The index of the first malformed line among `lines`, if there is one.
pub open spec fn first_malformed(lines: Seq<Seq<char>>) -> Option<int>
    decreases lines.len(),
{
    if lines.len() == 0 {
        None
    } else {
        match first_malformed(lines.drop_last()) {
            Some(i) => Some(i),
            None => if line_directive(lines.last()) is Malformed {
                Some(lines.len() - 1)
            } else {
                None
            },
        }
    }
}

/// What loading the keyfile `text` gives.
///
/// If a line is malformed, the first such line is reported and no table is
/// given. Otherwise the result is the built-in table with the bindings of
/// all lines made on top of it.
pub open spec fn load(text: Seq<char>) -> Result<Map<KeyWithModifiers, Action>, SyntaxFault> {
    let lines = split_lines(text);
    match first_malformed(lines) {
        Some(i) => Err(
            SyntaxFault {
                line_number: (i + 1) as nat,
                line: lines[i],
                kind: line_directive(lines[i])->Malformed_0,
            },
        ),
        None => Ok(apply_lines(lines, default_bindings())),
    }
}

/// Lines after the first malformed one do not change which one is first.
pub proof fn lemma_first_malformed_stays(lines: Seq<Seq<char>>, more: Seq<Seq<char>>)
    requires
        first_malformed(lines) is Some,
    ensures
        first_malformed(lines + more) == first_malformed(lines),
    decreases more.len(),
{
    if more.len() == 0 {
        assert(lines + more =~= lines);
    } else {
        assert((lines + more).drop_last() =~= lines + more.drop_last());
        lemma_first_malformed_stays(lines, more.drop_last());
    }
}

} // verus!
