//! Foreground colours, and the escape sequences that select them.

use crossterm::Command;
use rand::Rng;
use vstd::prelude::*;

verus! {

/// A colour that text may be drawn in.
#[derive(Debug, Clone, Copy, PartialEq, Eq, Hash, Structural)]
pub enum Color {
    White,
    Red,
    Yellow,
    Green,
    Cyan,
}

/// The colours to draw from, in order.
pub open spec fn palette() -> Seq<Color> {
    seq![Color::White, Color::Red, Color::Yellow, Color::Green, Color::Cyan]
}

/// The escape sequence that sets the foreground colour of a terminal to
/// `color`: the control sequence introducer, `38;5;`, the index of the colour
/// among the 256 colours, and `m`.
pub open spec fn foreground_sequence(color: Color) -> Seq<char> {
    match color {
        Color::White => "\x1B[38;5;15m"@,
        Color::Red => "\x1B[38;5;9m"@,
        Color::Yellow => "\x1B[38;5;11m"@,
        Color::Green => "\x1B[38;5;10m"@,
        Color::Cyan => "\x1B[38;5;14m"@,
    }
}

/// The ANSI code of crossterm's command `SetForegroundColor`, written out:
/// `Command::ansi_code`, then `to_string`.
///
/// Trusted: the code that crossterm writes for a foreground colour is the
/// control sequence introducer, `38;`, then `5;` and the colour's index (15
/// for white, 9 for red, 11 for yellow, 10 for green, 14 for cyan), then `m`.
/// The code is asked for directly, not by writing out the command itself,
/// which on a console without ANSI support would act on the console instead.
#[verifier::external_body]
fn set_foreground(color: Color) -> (sequence: String)
    ensures
        sequence@ == foreground_sequence(color),
{
    let color = match color {
        Color::White => crossterm::style::Color::White,
        Color::Red => crossterm::style::Color::Red,
        Color::Yellow => crossterm::style::Color::Yellow,
        Color::Green => crossterm::style::Color::Green,
        Color::Cyan => crossterm::style::Color::Cyan,
    };
    crossterm::style::SetForegroundColor(color).ansi_code().to_string()
}

/// `rand::Rng::choose` on the generator that `rand::thread_rng` gives.
///
/// Trusted: of an empty slice nothing is chosen; of any other, one of its
/// elements is. Which one is left open, and differs from call to call. The
/// generator is seeded by the system when a thread first asks for it, and
/// the call does not return if the system has no entropy to give.
#[verifier::external_body]
fn pick(values: &[String]) -> (chosen: Option<&String>)
    ensures
        chosen is Some <==> values@.len() > 0,
        chosen matches Some(value) ==> values@.contains(*value),
{
    rand::thread_rng().choose(values)
}

/// The escape sequence of a colour drawn at random from the palette.
pub fn random_fg_color() -> (sequence: String)
    ensures
        exists|i: int| 0 <= i < palette().len() && sequence@ == foreground_sequence(palette()[i]),
{
    let colors: Vec<String> = vec![
        set_foreground(Color::White),
        set_foreground(Color::Red),
        set_foreground(Color::Yellow),
        set_foreground(Color::Green),
        set_foreground(Color::Cyan),
    ];
    let chosen = pick(colors.as_slice()).unwrap();
    let ghost i = choose|i: int| 0 <= i < colors@.len() && colors@[i] == *chosen;
    assert(chosen@ == foreground_sequence(palette()[i]));
    chosen.clone()
}

} // verus!
