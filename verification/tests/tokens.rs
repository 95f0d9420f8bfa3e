use keybinds::to_action;
use keybinds::to_key;
use keybinds::Action;
use keybinds::KeyCode;

fn action(name: &str) -> Option<Action> {
    to_action(name.to_string())
}

fn key(name: &str) -> Option<KeyCode> {
    to_key(name.to_string())
}

#[test]
fn every_action_name_resolves() {
    let names = [
        ("unselect", Action::UnselectRet),
        ("scroll_up", Action::ScrollUp),
        ("scroll_down", Action::ScrollDown),
        ("delete", Action::DeleteSelected),
        ("select_up", Action::SelectUp),
        ("select_down", Action::SelectDown),
        ("select_left", Action::SelectLeft),
        ("select_right", Action::SelectRight),
        ("erase", Action::EraseChar),
        ("create_sibling", Action::CreateSibling),
        ("create_child", Action::CreateChild),
        ("create_free_node", Action::CreateFreeNode),
        ("execute", Action::ExecSelected),
        ("drill_down", Action::DrillDown),
        ("pop_up", Action::PopUp),
        ("jump", Action::PrefixJump),
        ("toggle_completed", Action::ToggleCompleted),
        ("toggle_hide_completed", Action::ToggleHideCompleted),
        ("arrow", Action::Arrow),
        ("auto_arrange", Action::AutoArrange),
        ("toggle_collapsed", Action::ToggleCollapsed),
        ("quit", Action::Quit),
        ("save", Action::Save),
        ("toggle_show_logs", Action::ToggleShowLogs),
        ("enter_command", Action::EnterCmd),
        ("find_task", Action::FindTask),
        ("yank_paste_node", Action::YankPasteNode),
        ("raise_selected", Action::RaiseSelected),
        ("lower_selected", Action::LowerSelected),
        ("search", Action::Search),
        ("undo_delete", Action::UndoDelete),
        ("help", Action::Help),
        ("select_parent", Action::SelectParent),
        ("select_next_sibling", Action::SelectNextSibling),
        ("select_prev_sibling", Action::SelectPrevSibling),
    ];
    assert_eq!(names.len(), 35);
    for (name, expected) in names {
        assert_eq!(action(name), Some(expected), "{}", name);
    }
}

#[test]
fn unknown_action_names_do_not_resolve() {
    assert_eq!(action("bogus_action"), None);
    assert_eq!(action(""), None);
    assert_eq!(action("Quit"), None);
    assert_eq!(action("QUIT"), None);
    assert_eq!(action("quit "), None);
    assert_eq!(action(" quit"), None);
    assert_eq!(action("qui"), None);
    assert_eq!(action("quitt"), None);
    assert_eq!(action("select"), None);
    assert_eq!(action("select_up_"), None);
}

#[test]
fn payload_actions_have_no_name() {
    assert_eq!(action("char"), None);
    assert_eq!(action("left_click"), None);
    assert_eq!(action("right_click"), None);
    assert_eq!(action("release"), None);
}

#[test]
fn named_keys_resolve() {
    assert_eq!(key("esc"), Some(KeyCode::Esc));
    assert_eq!(key("pgup"), Some(KeyCode::PageUp));
    assert_eq!(key("pgdn"), Some(KeyCode::PageDown));
    assert_eq!(key("del"), Some(KeyCode::Delete));
    assert_eq!(key("backspace"), Some(KeyCode::Backspace));
    assert_eq!(key("up"), Some(KeyCode::Up));
    assert_eq!(key("down"), Some(KeyCode::Down));
    assert_eq!(key("left"), Some(KeyCode::Left));
    assert_eq!(key("right"), Some(KeyCode::Right));
}

#[test]
fn space_enter_and_tab_are_character_keys() {
    assert_eq!(key("space"), Some(KeyCode::Char(' ')));
    assert_eq!(key("enter"), Some(KeyCode::Char('\n')));
    assert_eq!(key("tab"), Some(KeyCode::Char('\t')));
}

#[test]
fn a_single_character_is_its_own_key() {
    assert_eq!(key("q"), Some(KeyCode::Char('q')));
    assert_eq!(key("Q"), Some(KeyCode::Char('Q')));
    assert_eq!(key("7"), Some(KeyCode::Char('7')));
    assert_eq!(key(":"), Some(KeyCode::Char(':')));
    assert_eq!(key("#"), Some(KeyCode::Char('#')));
    assert_eq!(key(" "), Some(KeyCode::Char(' ')));
}

#[test]
fn a_single_character_outside_ascii_is_its_own_key() {
    assert_eq!(key("é"), Some(KeyCode::Char('é')));
    assert_eq!(key("λ"), Some(KeyCode::Char('λ')));
}

#[test]
fn other_key_tokens_do_not_resolve() {
    assert_eq!(key(""), None);
    assert_eq!(key("nosuchkey"), None);
    assert_eq!(key("qq"), None);
    assert_eq!(key("Esc"), None);
    assert_eq!(key("escape"), None);
    assert_eq!(key("f1"), None);
}

#[test]
fn key_tokens_with_a_modifier_prefix_do_not_resolve() {
    assert_eq!(key("C-x"), None);
    assert_eq!(key("A-p"), None);
    assert_eq!(key("ctrl+c"), None);
}
