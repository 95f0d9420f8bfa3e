//! What holds of the library as a whole, stated over the models that the
//! contracts of its functions use, and proved.

use vstd::prelude::*;

use crate::chord::KeyWithModifiers;
use crate::config::default_action;
use crate::config::default_bindings;
use crate::config::outcome_view;
use crate::config::Action;
use crate::config::Config;
use crate::event::Event;
use crate::event::KeyCode;
use crate::event::KeyEvent;
use crate::event::KeyModifiers;
use crate::event::MouseButton;
use crate::event::MouseEvent;
use crate::keyfile::apply_lines;
use crate::keyfile::first_malformed;
use crate::keyfile::is_skipped;
use crate::keyfile::line_directive;
use crate::keyfile::load;
use crate::keyfile::Directive;
use crate::keyfile::SyntaxError;
use crate::resolve::resolution;
use crate::resolve::resolve;
use crate::resolve::Resolution;
use crate::text::split_lines;
use crate::text::strip_carriage_return;

verus! {

/// Whether `line` binds `chord` to something.
pub open spec fn binds(line: Seq<char>, chord: KeyWithModifiers) -> bool {
    line_directive(line) matches Directive::Bind(bound, _) && bound == chord
}

/// Whether `line` is malformed.
pub open spec fn malformed(line: Seq<char>) -> bool {
    line_directive(line) is Malformed
}

/// Under the built-in table, a key press whose chord has a default action
/// asks for exactly that action.
pub proof fn default_chords_resolve(key: KeyEvent)
    requires
        default_action(KeyWithModifiers::of(key)) is Some,
    ensures
        resolve(default_bindings(), Event::Key(key)) == default_action(KeyWithModifiers::of(key)),
{
}

/// A key press whose chord is bound to nothing types its character, if it
/// has one; if it has none, it asks for no action and deserves a warning.
pub proof fn unbound_keys_fall_through(table: Map<KeyWithModifiers, Action>, key: KeyEvent)
    requires
        !table.contains_key(KeyWithModifiers::of(key)),
    ensures
        key.code matches KeyCode::Char(c) ==> resolve(table, Event::Key(key)) == Some(
            Action::Char(c),
        ),
        !(key.code is Char) ==> resolve(table, Event::Key(key)) is None && resolution(
            table,
            Event::Key(key),
        ).warns(),
{
}

/// A key press is looked up under its exact chord: what the same key is bound
/// to under other modifiers does not matter.
pub proof fn chords_match_exactly(table: Map<KeyWithModifiers, Action>, key: KeyEvent)
    requires
        table.contains_key(KeyWithModifiers::of(key)),
    ensures
        resolve(table, Event::Key(key)) == Some(table[KeyWithModifiers::of(key)]),
{
}

/// No table changes what the mouse means: a right button going down is a
/// right click where it went down, a left button a left click, a button
/// coming up a release.
pub proof fn mouse_ignores_the_table(
    table: Map<KeyWithModifiers, Action>,
    other: Map<KeyWithModifiers, Action>,
    mouse: MouseEvent,
)
    ensures
        resolution(table, Event::Mouse(mouse)) == resolution(other, Event::Mouse(mouse)),
        mouse matches MouseEvent::Down(MouseButton::Right, x, y, _) ==> resolve(
            table,
            Event::Mouse(mouse),
        ) == Some(Action::RightClick(x, y)),
        mouse matches MouseEvent::Down(MouseButton::Left, x, y, _) ==> resolve(
            table,
            Event::Mouse(mouse),
        ) == Some(Action::LeftClick(x, y)),
        mouse matches MouseEvent::Up(_, x, y, _) ==> resolve(table, Event::Mouse(mouse)) == Some(
            Action::Release(x, y),
        ),
{
}

/// The first malformed line is malformed, and no line before it is; where
/// there is none, no line is malformed.
pub proof fn first_malformed_is_first(lines: Seq<Seq<char>>)
    ensures
        match first_malformed(lines) {
            Some(i) => {
                &&& 0 <= i < lines.len()
                &&& malformed(lines[i])
                &&& forall|j: int| 0 <= j < i ==> !malformed(#[trigger] lines[j])
            },
            None => forall|j: int| 0 <= j < lines.len() ==> !malformed(#[trigger] lines[j]),
        },
    decreases lines.len(),
{
    if lines.len() > 0 {
        first_malformed_is_first(lines.drop_last());
        assert forall|j: int| 0 <= j < lines.len() - 1 implies lines.drop_last()[j]
            == #[trigger] lines[j] by {}
    }
}

/// A chord that no line binds keeps what it was bound to, whatever else the
/// lines bind and whether or not one of them is malformed.
pub proof fn unnamed_chords_keep_their_binding(
    lines: Seq<Seq<char>>,
    table: Map<KeyWithModifiers, Action>,
    chord: KeyWithModifiers,
)
    requires
        forall|i: int| 0 <= i < lines.len() ==> !binds(#[trigger] lines[i], chord),
    ensures
        apply_lines(lines, table).contains_key(chord) == table.contains_key(chord),
        apply_lines(lines, table)[chord] == table[chord],
    decreases lines.len(),
{
    if lines.len() > 0 {
        unnamed_chords_keep_their_binding(lines.drop_last(), table, chord);
    }
}

/// A keyfile cannot name a modifier: the chord that a line binds has none.
pub proof fn keyfile_chords_have_no_modifiers(line: Seq<char>)
    ensures
        line_directive(line) matches Directive::Bind(chord, _) ==> chord.modifiers
            == KeyModifiers::empty(),
{
}

/// No keyfile changes what a chord with a modifier is bound to.
pub proof fn chords_with_modifiers_keep_their_binding(
    lines: Seq<Seq<char>>,
    table: Map<KeyWithModifiers, Action>,
    chord: KeyWithModifiers,
)
    requires
        chord.modifiers != KeyModifiers::empty(),
    ensures
        apply_lines(lines, table).contains_key(chord) == table.contains_key(chord),
        apply_lines(lines, table)[chord] == table[chord],
{
    unnamed_chords_keep_their_binding(lines, table, chord);
}

/// The last line that binds a chord decides what the chord is bound to.
pub proof fn last_binding_wins(
    lines: Seq<Seq<char>>,
    table: Map<KeyWithModifiers, Action>,
    last: int,
    chord: KeyWithModifiers,
)
    requires
        0 <= last < lines.len(),
        binds(lines[last], chord),
        forall|i: int| last < i < lines.len() ==> !binds(#[trigger] lines[i], chord),
    ensures
        apply_lines(lines, table).contains_key(chord),
        line_directive(lines[last]) == Directive::Bind(chord, apply_lines(lines, table)[chord]),
    decreases lines.len(),
{
    if last < lines.len() - 1 {
        last_binding_wins(lines.drop_last(), table, last, chord);
    }
}

/// What a chord that some line binds ends up bound to depends on the lines
/// alone, not on the table they are applied to.
pub proof fn bound_chords_forget_the_table(
    lines: Seq<Seq<char>>,
    table: Map<KeyWithModifiers, Action>,
    other: Map<KeyWithModifiers, Action>,
    chord: KeyWithModifiers,
)
    requires
        exists|i: int| 0 <= i < lines.len() && binds(#[trigger] lines[i], chord),
    ensures
        apply_lines(lines, table).contains_key(chord),
        apply_lines(lines, other).contains_key(chord),
        apply_lines(lines, table)[chord] == apply_lines(lines, other)[chord],
    decreases lines.len(),
{
    if !binds(lines.last(), chord) {
        let i = choose|i: int| 0 <= i < lines.len() && binds(#[trigger] lines[i], chord);
        assert(binds(lines.drop_last()[i], chord));
        bound_chords_forget_the_table(lines.drop_last(), table, other, chord);
    }
}

/// Applying the same lines a second time changes nothing.
pub proof fn applying_twice_changes_nothing(
    lines: Seq<Seq<char>>,
    table: Map<KeyWithModifiers, Action>,
)
    ensures
        apply_lines(lines, apply_lines(lines, table)) == apply_lines(lines, table),
{
    let once = apply_lines(lines, table);
    let twice = apply_lines(lines, once);
    assert forall|chord: KeyWithModifiers|
        #![trigger twice.dom().contains(chord)]
        #![trigger once.dom().contains(chord)]
        twice.dom().contains(chord) == once.dom().contains(chord) && twice[chord]
            == once[chord] by {
        if exists|i: int| 0 <= i < lines.len() && binds(#[trigger] lines[i], chord) {
            bound_chords_forget_the_table(lines, once, table, chord);
        } else {
            unnamed_chords_keep_their_binding(lines, once, chord);
        }
    }
}

/// A line that is blank or a comment, put anywhere among the lines, changes
/// neither the table that the lines make nor whether a line is malformed;
/// it only moves the lines after it one further down.
pub proof fn skipped_lines_change_nothing(
    lines: Seq<Seq<char>>,
    at: int,
    line: Seq<char>,
    table: Map<KeyWithModifiers, Action>,
)
    requires
        0 <= at <= lines.len(),
        is_skipped(line),
    ensures
        apply_lines(lines.insert(at, line), table) == apply_lines(lines, table),
        first_malformed(lines.insert(at, line)) == match first_malformed(lines) {
            Some(i) => Some(
                if i < at {
                    i
                } else {
                    i + 1
                },
            ),
            None => None,
        },
    decreases lines.len() - at,
{
    let longer = lines.insert(at, line);
    if at == lines.len() {
        assert(longer.drop_last() =~= lines);
        first_malformed_is_first(lines);
    } else {
        assert(longer.drop_last() =~= lines.drop_last().insert(at, line));
        skipped_lines_change_nothing(lines.drop_last(), at, line, table);
    }
}

/// Text that is empty or ends in a line feed splits by itself: the lines of
/// it and more text are its lines, then the lines of the rest.
pub proof fn lines_of_whole_lines(whole: Seq<char>, more: Seq<char>)
    requires
        whole.len() == 0 || whole.last() == '\n',
    ensures
        split_lines(whole + more) == split_lines(whole) + split_lines(more),
    decreases whole.len(),
{
    if whole.len() > 0 {
        let both = whole + more;
        assert(whole.contains('\n'));
        assert(both.contains('\n')) by {
            assert(both[whole.len() - 1] == '\n');
        }
        whole.index_of_first_ensures('\n');
        both.index_of_first_ensures('\n');
        let n = whole.index_of_first('\n')->0;
        let m = both.index_of_first('\n')->0;
        assert(both[n] == whole[n]);
        assert(both.take(n) =~= whole.take(n));
        assert(both.skip(n + 1) =~= whole.skip(n + 1) + more);
        lines_of_whole_lines(whole.skip(n + 1), more);
    }
}

/// A comment line or a blank line, put between whole lines of a keyfile,
/// changes neither whether the keyfile loads nor the table that it gives.
pub proof fn skipped_lines_keep_the_table(before: Seq<char>, line: Seq<char>, after: Seq<char>)
    requires
        before.len() == 0 || before.last() == '\n',
        !line.contains('\n'),
        is_skipped(strip_carriage_return(line)),
    ensures
        match (load(before + line.push('\n') + after), load(before + after)) {
            (Ok(with), Ok(without)) => with == without,
            (Err(_), Err(_)) => true,
            _ => false,
        },
{
    let ended = line.push('\n');
    let kept = strip_carriage_return(line);
    assert(split_lines(ended) =~= seq![kept]) by {
        assert(ended[line.len() as int] == '\n');
        ended.index_of_first_ensures('\n');
        let n = ended.index_of_first('\n')->0;
        assert(ended.take(n) =~= line);
        assert(split_lines(ended.skip(n + 1)) =~= Seq::<Seq<char>>::empty());
    }
    assert(before + ended + after =~= before + (ended + after));
    lines_of_whole_lines(before, ended + after);
    lines_of_whole_lines(ended, after);
    lines_of_whole_lines(before, after);
    let first = split_lines(before);
    let rest = split_lines(after);
    assert(first + (seq![kept] + rest) =~= (first + rest).insert(first.len() as int, kept));
    skipped_lines_change_nothing(first + rest, first.len() as int, kept, default_bindings());
}

/// A comment or a blank line at the end of a keyfile, without a line ending
/// of its own, changes neither whether the keyfile loads nor the table that
/// it gives.
pub proof fn skipped_last_line_keeps_the_table(before: Seq<char>, line: Seq<char>)
    requires
        before.len() == 0 || before.last() == '\n',
        !line.contains('\n'),
        is_skipped(line),
    ensures
        match (load(before + line), load(before)) {
            (Ok(with), Ok(without)) => with == without,
            (Err(_), Err(_)) => true,
            _ => false,
        },
{
    let first = split_lines(before);
    if line.len() > 0 {
        line.index_of_first_ensures('\n');
        lines_of_whole_lines(before, line);
        assert(first + seq![line] =~= first.insert(first.len() as int, line));
        skipped_lines_change_nothing(first, first.len() as int, line, default_bindings());
    }
}

/// Loading is a function of the text: two loads of the same keyfile give the
/// same table, or the same error.
pub proof fn loading_twice_agrees(
    text: Seq<char>,
    first: Result<Config, SyntaxError>,
    second: Result<Config, SyntaxError>,
)
    requires
        outcome_view(first) == load(text),
        outcome_view(second) == load(text),
    ensures
        outcome_view(first) == outcome_view(second),
        first matches Ok(a) ==> second matches Ok(b) && a@ == b@,
{
}

/// A keyfile loads exactly when none of its lines is malformed, and then
/// gives the built-in table with the bindings of its lines made on top.
pub proof fn load_succeeds_without_malformed_lines(text: Seq<char>)
    ensures
        load(text) is Ok <==> forall|i: int|
            0 <= i < split_lines(text).len() ==> !malformed(#[trigger] split_lines(text)[i]),
        load(text) matches Ok(table) ==> table == apply_lines(
            split_lines(text),
            default_bindings(),
        ),
{
    first_malformed_is_first(split_lines(text));
}

/// A load that fails gives no table, however many bindings came before the
/// malformed line, and reports the first malformed line: its number counted
/// from 1 over all lines, its text, and what is wrong with it.
pub proof fn load_reports_the_first_malformed_line(text: Seq<char>)
    ensures
        load(text) matches Err(fault) ==> {
            let lines = split_lines(text);
            &&& 1 <= fault.line_number <= lines.len()
            &&& fault.line == lines[fault.line_number - 1]
            &&& line_directive(fault.line) == Directive::Malformed(fault.kind)
            &&& forall|j: int| 0 <= j < fault.line_number - 1 ==> !malformed(#[trigger] lines[j])
        },
{
    first_malformed_is_first(split_lines(text));
}

} // verus!
