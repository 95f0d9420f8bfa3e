//! Actions, their names, and the table that binds key chords to them.

use std::collections::HashMap;
use vstd::prelude::*;
use vstd::slice::slice_subrange;
use vstd::std_specs::iter::IteratorSpec;

use crate::chord::KeyWithModifiers;
use crate::event::Event;
use crate::event::KeyCode;
use crate::event::KeyModifiers;
use crate::event::MouseButton;
use crate::event::MouseEvent;
use crate::keyfile::apply_lines;
use crate::keyfile::first_malformed;
use crate::keyfile::lemma_first_malformed_stays;
use crate::keyfile::load;
use crate::keyfile::parse_line;
use crate::keyfile::Directive;
use crate::keyfile::SyntaxError;
use crate::keyfile::SyntaxFault;
use crate::resolve::resolution;
use crate::resolve::resolve;
use crate::resolve::Resolution;
use crate::text::chars_of;
use crate::text::is_token;
use crate::text::line_at;
use crate::text::split_lines;

verus! {

/// What the application can be asked to do.
#[derive(Debug, Copy, Clone, Hash, PartialOrd, Ord, PartialEq, Eq, Structural)]
pub enum Action {
    /// The left button went down at this column and row.
    LeftClick(u16, u16),
    /// The right button went down at this column and row.
    RightClick(u16, u16),
    /// A button was released at this column and row.
    Release(u16, u16),
    /// A character typed as text.
    Char(char),
    UnselectRet,
    ScrollUp,
    ScrollDown,
    DeleteSelected,
    SelectUp,
    SelectDown,
    SelectLeft,
    SelectRight,
    EraseChar,
    CreateSibling,
    CreateChild,
    CreateFreeNode,
    ExecSelected,
    DrillDown,
    PopUp,
    PrefixJump,
    ToggleCompleted,
    ToggleHideCompleted,
    Arrow,
    AutoArrange,
    ToggleCollapsed,
    Quit,
    Save,
    ToggleShowLogs,
    EnterCmd,
    FindTask,
    YankPasteNode,
    RaiseSelected,
    LowerSelected,
    Search,
    UndoDelete,
    Help,
    SelectParent,
    SelectNextSibling,
    SelectPrevSibling,
}

/// The action that the token `name` stands for in a keyfile, if any.
///
/// Names are lower case with underscores and are matched exactly. The actions
/// that carry a payload have no name.
pub open spec fn action_named(name: Seq<char>) -> Option<Action> {
    if name == "unselect"@ {
        Some(Action::UnselectRet)
    } else if name == "scroll_up"@ {
        Some(Action::ScrollUp)
    } else if name == "scroll_down"@ {
        Some(Action::ScrollDown)
    } else if name == "delete"@ {
        Some(Action::DeleteSelected)
    } else if name == "select_up"@ {
        Some(Action::SelectUp)
    } else if name == "select_down"@ {
        Some(Action::SelectDown)
    } else if name == "select_left"@ {
        Some(Action::SelectLeft)
    } else if name == "select_right"@ {
        Some(Action::SelectRight)
    } else if name == "erase"@ {
        Some(Action::EraseChar)
    } else if name == "create_sibling"@ {
        Some(Action::CreateSibling)
    } else if name == "create_child"@ {
        Some(Action::CreateChild)
    } else if name == "create_free_node"@ {
        Some(Action::CreateFreeNode)
    } else if name == "execute"@ {
        Some(Action::ExecSelected)
    } else if name == "drill_down"@ {
        Some(Action::DrillDown)
    } else if name == "pop_up"@ {
        Some(Action::PopUp)
    } else if name == "jump"@ {
        Some(Action::PrefixJump)
    } else if name == "toggle_completed"@ {
        Some(Action::ToggleCompleted)
    } else if name == "toggle_hide_completed"@ {
        Some(Action::ToggleHideCompleted)
    } else if name == "arrow"@ {
        Some(Action::Arrow)
    } else if name == "auto_arrange"@ {
        Some(Action::AutoArrange)
    } else if name == "toggle_collapsed"@ {
        Some(Action::ToggleCollapsed)
    } else if name == "quit"@ {
        Some(Action::Quit)
    } else if name == "save"@ {
        Some(Action::Save)
    } else if name == "toggle_show_logs"@ {
        Some(Action::ToggleShowLogs)
    } else if name == "enter_command"@ {
        Some(Action::EnterCmd)
    } else if name == "find_task"@ {
        Some(Action::FindTask)
    } else if name == "yank_paste_node"@ {
        Some(Action::YankPasteNode)
    } else if name == "raise_selected"@ {
        Some(Action::RaiseSelected)
    } else if name == "lower_selected"@ {
        Some(Action::LowerSelected)
    } else if name == "search"@ {
        Some(Action::Search)
    } else if name == "undo_delete"@ {
        Some(Action::UndoDelete)
    } else if name == "help"@ {
        Some(Action::Help)
    } else if name == "select_parent"@ {
        Some(Action::SelectParent)
    } else if name == "select_next_sibling"@ {
        Some(Action::SelectNextSibling)
    } else if name == "select_prev_sibling"@ {
        Some(Action::SelectPrevSibling)
    } else {
        None
    }
}

/// The key that the token `name` stands for in a keyfile, if any.
///
/// A few keys have names; any other token of exactly one character stands for
/// that character's key. A keyfile has no way to name a modifier.
pub open spec fn key_named(name: Seq<char>) -> Option<KeyCode> {
    if name == "esc"@ {
        Some(KeyCode::Esc)
    } else if name == "pgup"@ {
        Some(KeyCode::PageUp)
    } else if name == "pgdn"@ {
        Some(KeyCode::PageDown)
    } else if name == "del"@ {
        Some(KeyCode::Delete)
    } else if name == "backspace"@ {
        Some(KeyCode::Backspace)
    } else if name == "up"@ {
        Some(KeyCode::Up)
    } else if name == "down"@ {
        Some(KeyCode::Down)
    } else if name == "left"@ {
        Some(KeyCode::Left)
    } else if name == "right"@ {
        Some(KeyCode::Right)
    } else if name == "space"@ {
        Some(KeyCode::Char(' '))
    } else if name == "enter"@ {
        Some(KeyCode::Char('\n'))
    } else if name == "tab"@ {
        Some(KeyCode::Char('\t'))
    } else if name.len() == 1 {
        Some(KeyCode::Char(name[0]))
    } else {
        None
    }
}

/// Resolves an action token given as characters.
pub fn action_of_token(token: &[char]) -> (action: Option<Action>)
    ensures
        action == action_named(token@),
{
    if is_token(token, "unselect") {
        Some(Action::UnselectRet)
    } else if is_token(token, "scroll_up") {
        Some(Action::ScrollUp)
    } else if is_token(token, "scroll_down") {
        Some(Action::ScrollDown)
    } else if is_token(token, "delete") {
        Some(Action::DeleteSelected)
    } else if is_token(token, "select_up") {
        Some(Action::SelectUp)
    } else if is_token(token, "select_down") {
        Some(Action::SelectDown)
    } else if is_token(token, "select_left") {
        Some(Action::SelectLeft)
    } else if is_token(token, "select_right") {
        Some(Action::SelectRight)
    } else if is_token(token, "erase") {
        Some(Action::EraseChar)
    } else if is_token(token, "create_sibling") {
        Some(Action::CreateSibling)
    } else if is_token(token, "create_child") {
        Some(Action::CreateChild)
    } else if is_token(token, "create_free_node") {
        Some(Action::CreateFreeNode)
    } else if is_token(token, "execute") {
        Some(Action::ExecSelected)
    } else if is_token(token, "drill_down") {
        Some(Action::DrillDown)
    } else if is_token(token, "pop_up") {
        Some(Action::PopUp)
    } else if is_token(token, "jump") {
        Some(Action::PrefixJump)
    } else if is_token(token, "toggle_completed") {
        Some(Action::ToggleCompleted)
    } else if is_token(token, "toggle_hide_completed") {
        Some(Action::ToggleHideCompleted)
    } else if is_token(token, "arrow") {
        Some(Action::Arrow)
    } else if is_token(token, "auto_arrange") {
        Some(Action::AutoArrange)
    } else if is_token(token, "toggle_collapsed") {
        Some(Action::ToggleCollapsed)
    } else if is_token(token, "quit") {
        Some(Action::Quit)
    } else if is_token(token, "save") {
        Some(Action::Save)
    } else if is_token(token, "toggle_show_logs") {
        Some(Action::ToggleShowLogs)
    } else if is_token(token, "enter_command") {
        Some(Action::EnterCmd)
    } else if is_token(token, "find_task") {
        Some(Action::FindTask)
    } else if is_token(token, "yank_paste_node") {
        Some(Action::YankPasteNode)
    } else if is_token(token, "raise_selected") {
        Some(Action::RaiseSelected)
    } else if is_token(token, "lower_selected") {
        Some(Action::LowerSelected)
    } else if is_token(token, "search") {
        Some(Action::Search)
    } else if is_token(token, "undo_delete") {
        Some(Action::UndoDelete)
    } else if is_token(token, "help") {
        Some(Action::Help)
    } else if is_token(token, "select_parent") {
        Some(Action::SelectParent)
    } else if is_token(token, "select_next_sibling") {
        Some(Action::SelectNextSibling)
    } else if is_token(token, "select_prev_sibling") {
        Some(Action::SelectPrevSibling)
    } else {
        None
    }
}

/// Resolves a key token given as characters.
pub fn key_of_token(token: &[char]) -> (key: Option<KeyCode>)
    ensures
        key == key_named(token@),
{
    if is_token(token, "esc") {
        Some(KeyCode::Esc)
    } else if is_token(token, "pgup") {
        Some(KeyCode::PageUp)
    } else if is_token(token, "pgdn") {
        Some(KeyCode::PageDown)
    } else if is_token(token, "del") {
        Some(KeyCode::Delete)
    } else if is_token(token, "backspace") {
        Some(KeyCode::Backspace)
    } else if is_token(token, "up") {
        Some(KeyCode::Up)
    } else if is_token(token, "down") {
        Some(KeyCode::Down)
    } else if is_token(token, "left") {
        Some(KeyCode::Left)
    } else if is_token(token, "right") {
        Some(KeyCode::Right)
    } else if is_token(token, "space") {
        Some(KeyCode::Char(' '))
    } else if is_token(token, "enter") {
        Some(KeyCode::Char('\n'))
    } else if is_token(token, "tab") {
        Some(KeyCode::Char('\t'))
    } else if token.len() == 1 {
        Some(KeyCode::Char(token[0]))
    } else {
        None
    }
}

/// Resolves the name of an action, as a keyfile writes it.
pub fn to_action(input: String) -> (action: Option<Action>)
    ensures
        action == action_named(input@),
{
    let token = chars_of(input.as_str());
    action_of_token(token.as_slice())
}

/// Resolves the name of a key, as a keyfile writes it.
pub fn to_key(raw_key: String) -> (key: Option<KeyCode>)
    ensures
        key == key_named(raw_key@),
{
    let token = chars_of(raw_key.as_str());
    key_of_token(token.as_slice())
}

/// The action that the built-in table binds `chord` to, if any.
pub open spec fn default_action(chord: KeyWithModifiers) -> Option<Action> {
    if chord.modifiers == KeyModifiers::empty() {
        match chord.code {
            KeyCode::Esc => Some(Action::UnselectRet),
            KeyCode::PageUp => Some(Action::ScrollUp),
            KeyCode::PageDown => Some(Action::ScrollDown),
            KeyCode::Delete => Some(Action::DeleteSelected),
            KeyCode::Up => Some(Action::SelectUp),
            KeyCode::Down => Some(Action::SelectDown),
            KeyCode::Left => Some(Action::SelectLeft),
            KeyCode::Right => Some(Action::SelectRight),
            KeyCode::Backspace => Some(Action::EraseChar),
            KeyCode::F(1) => Some(Action::PrefixJump),
            KeyCode::Enter => Some(Action::CreateSibling),
            KeyCode::Tab => Some(Action::CreateChild),
            _ => None,
        }
    } else if chord.modifiers == KeyModifiers::control() {
        match chord.code {
            KeyCode::Char('n') => Some(Action::CreateFreeNode),
            KeyCode::Char('k') => Some(Action::ExecSelected),
            KeyCode::Char('w') => Some(Action::DrillDown),
            KeyCode::Char('q') => Some(Action::PopUp),
            KeyCode::Char('f') => Some(Action::PrefixJump),
            KeyCode::Char('a') => Some(Action::ToggleCompleted),
            KeyCode::Char('h') => Some(Action::ToggleHideCompleted),
            KeyCode::Char('r') => Some(Action::Arrow),
            KeyCode::Char('p') => Some(Action::AutoArrange),
            KeyCode::Char('t') => Some(Action::ToggleCollapsed),
            KeyCode::Char('c') => Some(Action::Quit),
            KeyCode::Char('x') => Some(Action::Save),
            KeyCode::Char('l') => Some(Action::ToggleShowLogs),
            KeyCode::Char('e') => Some(Action::EnterCmd),
            KeyCode::Char('v') => Some(Action::FindTask),
            KeyCode::Char('y') => Some(Action::YankPasteNode),
            KeyCode::Char('g') => Some(Action::RaiseSelected),
            KeyCode::Char('d') => Some(Action::LowerSelected),
            KeyCode::Char('u') => Some(Action::Search),
            KeyCode::Char('z') => Some(Action::UndoDelete),
            KeyCode::Char('?') => Some(Action::Help),
            _ => None,
        }
    } else if chord.modifiers == KeyModifiers::alt() {
        match chord.code {
            KeyCode::Char('P') => Some(Action::SelectParent),
            KeyCode::Char('n') => Some(Action::SelectNextSibling),
            KeyCode::Char('p') => Some(Action::SelectPrevSibling),
            _ => None,
        }
    } else {
        None
    }
}

/// The built-in table: every chord that has a default action, bound to it.
pub open spec fn default_bindings() -> Map<KeyWithModifiers, Action> {
    Map::new(
        |chord: KeyWithModifiers| default_action(chord) is Some,
        |chord: KeyWithModifiers| default_action(chord)->0,
    )
}

/// What a load gave, as a mathematical value: the table, or the fault found.
pub open spec fn outcome_view(outcome: Result<Config, SyntaxError>) -> Result<
    Map<KeyWithModifiers, Action>,
    SyntaxFault,
> {
    match outcome {
        Ok(table) => Ok(table@),
        Err(error) => Err(error@),
    }
}

/// Whether `list` holds exactly the bindings of `table`, each chord once.
pub open spec fn lists_bindings(
    list: Seq<(KeyWithModifiers, Action)>,
    table: Map<KeyWithModifiers, Action>,
) -> bool {
    &&& forall|i: int|
        0 <= i < list.len() ==> #[trigger] table.contains_pair(list[i].0, list[i].1)
    &&& forall|chord: KeyWithModifiers| #[trigger]
        table.contains_key(chord) ==> exists|i: int|
            0 <= i < list.len() && #[trigger] list[i].0 == chord
    &&& forall|i: int, j: int|
        0 <= i < j < list.len() ==> #[trigger] list[i].0 != #[trigger] list[j].0
}

/// The table of bindings: at most one action for each chord.
#[derive(Debug)]
pub struct Config {
    /// Each binding under the number of its chord.
    config: HashMap<u64, (KeyWithModifiers, Action)>,
}

impl View for Config {
    type V = Map<KeyWithModifiers, Action>;

    /// The table as a map from chords to actions.
    closed spec fn view(&self) -> Map<KeyWithModifiers, Action> {
        Map::new(
            |chord: KeyWithModifiers| self.config@.contains_key(chord.number()),
            |chord: KeyWithModifiers| self.config@[chord.number()].1,
        )
    }
}

impl Clone for Config {
    /// A table with the same bindings.
    fn clone(&self) -> (copy: Config)
        ensures
            copy@ == self@,
    {
        proof {
            use_type_invariant(self);
        }
        Config { config: self.config.clone() }
    }
}

impl Default for Config {
    /// The built-in table.
    fn default() -> (table: Config)
        ensures
            table@ == default_bindings(),
    {
        let none = KeyModifiers::empty();
        let control = KeyModifiers::control();
        let alt = KeyModifiers::alt();
        let mut table = Config::empty();
        table.bind_key(KeyCode::Esc, none, Action::UnselectRet);
        table.bind_key(KeyCode::PageUp, none, Action::ScrollUp);
        table.bind_key(KeyCode::PageDown, none, Action::ScrollDown);
        table.bind_key(KeyCode::Delete, none, Action::DeleteSelected);
        table.bind_key(KeyCode::Up, none, Action::SelectUp);
        table.bind_key(KeyCode::Down, none, Action::SelectDown);
        table.bind_key(KeyCode::Left, none, Action::SelectLeft);
        table.bind_key(KeyCode::Right, none, Action::SelectRight);
        table.bind_key(KeyCode::Backspace, none, Action::EraseChar);
        table.bind_key(KeyCode::F(1), none, Action::PrefixJump);
        table.bind_key(KeyCode::Enter, none, Action::CreateSibling);
        table.bind_key(KeyCode::Tab, none, Action::CreateChild);
        table.bind_key(KeyCode::Char('n'), control, Action::CreateFreeNode);
        table.bind_key(KeyCode::Char('k'), control, Action::ExecSelected);
        table.bind_key(KeyCode::Char('w'), control, Action::DrillDown);
        table.bind_key(KeyCode::Char('q'), control, Action::PopUp);
        table.bind_key(KeyCode::Char('f'), control, Action::PrefixJump);
        table.bind_key(KeyCode::Char('a'), control, Action::ToggleCompleted);
        table.bind_key(KeyCode::Char('h'), control, Action::ToggleHideCompleted);
        table.bind_key(KeyCode::Char('r'), control, Action::Arrow);
        table.bind_key(KeyCode::Char('p'), control, Action::AutoArrange);
        table.bind_key(KeyCode::Char('t'), control, Action::ToggleCollapsed);
        table.bind_key(KeyCode::Char('c'), control, Action::Quit);
        table.bind_key(KeyCode::Char('x'), control, Action::Save);
        table.bind_key(KeyCode::Char('l'), control, Action::ToggleShowLogs);
        table.bind_key(KeyCode::Char('e'), control, Action::EnterCmd);
        table.bind_key(KeyCode::Char('v'), control, Action::FindTask);
        table.bind_key(KeyCode::Char('y'), control, Action::YankPasteNode);
        table.bind_key(KeyCode::Char('g'), control, Action::RaiseSelected);
        table.bind_key(KeyCode::Char('d'), control, Action::LowerSelected);
        table.bind_key(KeyCode::Char('u'), control, Action::Search);
        table.bind_key(KeyCode::Char('z'), control, Action::UndoDelete);
        table.bind_key(KeyCode::Char('?'), control, Action::Help);
        table.bind_key(KeyCode::Char('P'), alt, Action::SelectParent);
        table.bind_key(KeyCode::Char('n'), alt, Action::SelectNextSibling);
        table.bind_key(KeyCode::Char('p'), alt, Action::SelectPrevSibling);
        table
    }
}

impl Config {
    /// Every entry is stored under the number of its own chord.
    #[verifier::type_invariant]
    spec fn keyed_by_number(self) -> bool {
        forall|n: u64| #[trigger]
            self.config@.contains_key(n) ==> self.config@[n].0.number() == n
    }

    /// A table without bindings.
    pub fn empty() -> (table: Config)
        ensures
            table@ == Map::<KeyWithModifiers, Action>::empty(),
    {
        let table = Config { config: HashMap::new() };
        table
    }

    /// Binds `chord` to `action`, in place of what it was bound to before.
    pub fn bind(&mut self, chord: KeyWithModifiers, action: Action)
        ensures
            final(self)@ == old(self)@.insert(chord, action),
    {
        broadcast use vstd::std_specs::hash::group_hash_axioms;

        proof {
            use_type_invariant(&*self);
        }
        // The table is taken out while it changes, so that `self` is whole at every call.
        let mut table: HashMap<u64, (KeyWithModifiers, Action)> = HashMap::new();
        core::mem::swap(&mut self.config, &mut table);
        table.insert(chord.number(), (chord, action));
        core::mem::swap(&mut self.config, &mut table);
        proof {
            assert forall|other: KeyWithModifiers|
                other.number() == chord.number() implies other == chord by {
                KeyWithModifiers::lemma_number_identifies(other, chord);
            }
        }
    }

    /// Binds the chord of `code` and `modifiers` to `action`.
    fn bind_key(&mut self, code: KeyCode, modifiers: KeyModifiers, action: Action)
        ensures
            final(self)@ == old(self)@.insert(KeyWithModifiers { code, modifiers }, action),
    {
        self.bind(KeyWithModifiers { code, modifiers }, action)
    }

    /// The action that `chord` is bound to.
    pub fn get(&self, chord: KeyWithModifiers) -> (action: Option<Action>)
        ensures
            action == if self@.contains_key(chord) {
                Some(self@[chord])
            } else {
                None
            },
    {
        broadcast use vstd::std_specs::hash::group_hash_axioms;

        let n = chord.number();
        match self.config.get(&n) {
            Some(entry) => Some(entry.1),
            None => None,
        }
    }

    /// All bindings of the table, each chord once, in no particular order.
    pub fn bindings(&self) -> (list: Vec<(KeyWithModifiers, Action)>)
        ensures
            lists_bindings(list@, self@),
    {
        broadcast use vstd::std_specs::hash::group_hash_axioms;

        proof {
            use_type_invariant(self);
        }
        let mut list: Vec<(KeyWithModifiers, Action)> = Vec::new();
        let ghost entries = self.config.iter().remaining();
        for entry in it: self.config.iter()
            invariant
                it.seq() == entries,
                list@.len() == it.index(),
                forall|i: int| 0 <= i < list@.len() ==> list@[i] == *(#[trigger] entries[i]).1,
        {
            list.push(*entry.1);
        }
        proof {
            assert forall|chord: KeyWithModifiers| #[trigger] self@.contains_key(chord) implies exists|
                i: int,
            |
                0 <= i < list@.len() && #[trigger] list@[i].0 == chord by {
                let n = chord.number();
                let stored = self.config@[n];
                assert(entries.contains((&n, &stored)));
                let i = choose|i: int| 0 <= i < entries.len() && entries[i] == (&n, &stored);
                KeyWithModifiers::lemma_number_identifies(stored.0, chord);
                assert(list@[i].0 == chord);
            }
            assert forall|i: int, j: int| 0 <= i < j < list@.len() implies #[trigger] list@[i].0
                != #[trigger] list@[j].0 by {
                assert(entries[i] != entries[j]);
                assert(self.config@.contains_key(*entries[i].0));
                assert(self.config@.contains_key(*entries[j].0));
            }
            assert forall|i: int| 0 <= i < list@.len() implies #[trigger] self@.contains_pair(
                list@[i].0,
                list@[i].1,
            ) by {
                assert(self.config@.contains_key(*entries[i].0));
            }
        }
        list
    }

    /// What `e` comes to under this table, warnings included.
    pub fn resolve(&self, e: Event) -> (outcome: Resolution)
        ensures
            outcome == resolution(self@, e),
    {
        match e {
            Event::Key(key) => match self.get(KeyWithModifiers::of(key)) {
                Some(action) => Resolution::Act(action),
                None => match key.code {
                    KeyCode::Char(c) => Resolution::Act(Action::Char(c)),
                    _ => Resolution::UnboundKey(key),
                },
            },
            Event::Mouse(MouseEvent::Down(MouseButton::Right, x, y, _)) => Resolution::Act(
                Action::RightClick(x, y),
            ),
            Event::Mouse(MouseEvent::Down(MouseButton::Left, x, y, _)) => Resolution::Act(
                Action::LeftClick(x, y),
            ),
            Event::Mouse(MouseEvent::Up(_, x, y, _)) => Resolution::Act(Action::Release(x, y)),
            _ => Resolution::Unexpected(e),
        }
    }

    /// The action that `e` asks for under this table, if any.
    pub fn map(&self, e: Event) -> (action: Option<Action>)
        ensures
            action == resolve(self@, e),
    {
        self.resolve(e).action()
    }

    /// Loads the keyfile whose text is `keyfile`: the built-in table with the
    /// bindings of the keyfile made on top of it, or the first malformed line.
    pub fn parse_keyfile(keyfile: String) -> (outcome: Result<Config, SyntaxError>)
        ensures
            outcome_view(outcome) == load(keyfile@),
    {
        let text = chars_of(keyfile.as_str());
        let mut table = Config::default();
        let mut start: usize = 0;
        let mut line_number: usize = 0;
        let ghost mut done: Seq<Seq<char>> = Seq::empty();
        assert(text@.skip(0) =~= text@);
        while start < text.len()
            invariant
                text@ == keyfile@,
                start <= text.len(),
                line_number <= start,
                line_number == done.len(),
                split_lines(text@) == done + split_lines(text@.skip(start as int)),
                first_malformed(done) is None,
                table@ == apply_lines(done, default_bindings()),
            decreases text.len() - start,
        {
            let (end, next) = line_at(text.as_slice(), start);
            let line = slice_subrange(text.as_slice(), start, end);
            line_number += 1;
            let ghost rest = split_lines(text@.skip(next as int));
            proof {
                assert(done.push(line@).drop_last() =~= done);
                assert(split_lines(text@) =~= done.push(line@) + rest);
            }
            match parse_line(line) {
                Directive::Skip => {},
                Directive::Bind(chord, action) => {
                    table.bind(chord, action);
                },
                Directive::Malformed(kind) => {
                    proof {
                        lemma_first_malformed_stays(done.push(line@), rest);
                    }
                    return Err(
                        SyntaxError {
                            line_number,
                            line: keyfile.as_str().substring_char(start, end).to_owned(),
                            kind,
                        },
                    );
                },
            }
            proof {
                done = done.push(line@);
            }
            start = next;
        }
        Ok(table)
    }

    /// The table to start with: loaded from the text of the keyfile where
    /// one was named, the built-in table where none was.
    pub fn maybe_parsed_from_env(keyfile: Option<String>) -> (outcome: Result<Config, SyntaxError>)
        ensures
            outcome_view(outcome) == match keyfile {
                Some(text) => load(text@),
                None => Ok(default_bindings()),
            },
    {
        match keyfile {
            Some(text) => Config::parse_keyfile(text),
            None => Ok(Config::default()),
        }
    }
}

} // verus!
