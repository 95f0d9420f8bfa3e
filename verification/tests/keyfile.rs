use keybinds::keyfile::parse_line;
use keybinds::Action;
use keybinds::Config;
use keybinds::Directive;
use keybinds::Event;
use keybinds::KeyCode;
use keybinds::KeyEvent;
use keybinds::KeyModifiers;
use keybinds::KeyWithModifiers;
use keybinds::SyntaxError;
use keybinds::SyntaxErrorKind;

fn load(text: &str) -> Result<Config, SyntaxError> {
    Config::parse_keyfile(text.to_string())
}

fn plain(c: char) -> Event {
    Event::Key(KeyEvent { code: KeyCode::Char(c), modifiers: KeyModifiers::empty() })
}

fn control(c: char) -> Event {
    Event::Key(KeyEvent { code: KeyCode::Char(c), modifiers: KeyModifiers::control() })
}

fn sorted(table: &Config) -> Vec<(u64, Action)> {
    let mut list: Vec<(u64, Action)> =
        table.bindings().into_iter().map(|(chord, action)| (chord.number(), action)).collect();
    list.sort();
    list
}

fn directive(line: &str) -> Directive {
    let chars: Vec<char> = line.chars().collect();
    parse_line(&chars)
}

fn bind(code: KeyCode, action: Action) -> Directive {
    Directive::Bind(KeyWithModifiers { code, modifiers: KeyModifiers::empty() }, action)
}

#[test]
fn quit_q_rebinds_plain_q_and_keeps_control_c() {
    let table = load("quit: q").unwrap();
    assert_eq!(table.map(plain('q')), Some(Action::Quit));
    assert_eq!(table.map(control('c')), Some(Action::Quit));
    assert_eq!(table.map(control('q')), Some(Action::PopUp));
    assert_eq!(table.bindings().len(), 37);
}

#[test]
fn an_empty_keyfile_gives_the_built_in_table() {
    assert_eq!(sorted(&load("").unwrap()), sorted(&Config::default()));
    assert_eq!(sorted(&load("\n").unwrap()), sorted(&Config::default()));
    assert_eq!(sorted(&load("\n\n\n").unwrap()), sorted(&Config::default()));
}

#[test]
fn a_line_without_colon_is_a_syntax_error_with_its_line_number() {
    let error = load("quit q").unwrap_err();
    assert_eq!(
        error,
        SyntaxError {
            line_number: 1,
            line: "quit q".to_string(),
            kind: SyntaxErrorKind::MissingSeparator,
        }
    );
    let error = load("quit: q\nsave: s\nquit q\n").unwrap_err();
    assert_eq!(error.line_number, 3);
    assert_eq!(error.line, "quit q");
    assert_eq!(error.kind, SyntaxErrorKind::MissingSeparator);
}

#[test]
fn an_unknown_key_token_is_a_syntax_error() {
    let error = load("quit: nosuchkey").unwrap_err();
    assert_eq!(
        error,
        SyntaxError {
            line_number: 1,
            line: "quit: nosuchkey".to_string(),
            kind: SyntaxErrorKind::UnknownKey,
        }
    );
}

#[test]
fn an_unknown_action_token_is_a_syntax_error() {
    let error = load("bogus_action: q").unwrap_err();
    assert_eq!(
        error,
        SyntaxError {
            line_number: 1,
            line: "bogus_action: q".to_string(),
            kind: SyntaxErrorKind::UnknownAction,
        }
    );
}

#[test]
fn an_unknown_action_is_reported_before_an_unknown_key() {
    let error = load("bogus_action: nosuchkey").unwrap_err();
    assert_eq!(error.kind, SyntaxErrorKind::UnknownAction);
}

#[test]
fn line_numbers_count_comments_and_blank_lines() {
    let error = load("# first\n\nquit: q\n# fourth\nsave s\nhelp: h\n").unwrap_err();
    assert_eq!(error.line_number, 5);
    assert_eq!(error.line, "save s");
}

#[test]
fn the_first_malformed_line_is_the_one_reported() {
    let error = load("quit: q\nbogus: q\nsave s\n").unwrap_err();
    assert_eq!(error.line_number, 2);
    assert_eq!(error.line, "bogus: q");
    assert_eq!(error.kind, SyntaxErrorKind::UnknownAction);
}

#[test]
fn comments_and_blank_lines_change_nothing() {
    let bare = load("quit: q\nsave: s\n").unwrap();
    let texts = [
        "# a comment\nquit: q\nsave: s\n",
        "quit: q\n# a comment\nsave: s\n",
        "quit: q\nsave: s\n# a comment\n",
        "quit: q\nsave: s\n# a comment",
        "\nquit: q\nsave: s\n",
        "quit: q\n\n\nsave: s\n",
        "quit: q\nsave: s\n\n",
        "#\n#quit: x\n# save: y\nquit: q\n#: :\nsave: s\n",
        "   \nquit: q\n\t\nsave: s\n  # indented comment\n",
    ];
    for text in texts {
        assert_eq!(sorted(&load(text).unwrap()), sorted(&bare), "{:?}", text);
    }
    assert_eq!(sorted(&load("# only a comment\n").unwrap()), sorted(&Config::default()));
}

#[test]
fn a_comment_may_hold_anything() {
    let table = load("# quit q\n# bogus: nosuchkey\n#no colon here\n").unwrap();
    assert_eq!(sorted(&table), sorted(&Config::default()));
}

#[test]
fn loading_twice_gives_the_same_table() {
    let text = "quit: q\n# comment\nsave: s\nhelp: esc\nquit: x\nscroll_up: up\n";
    let first = load(text).unwrap();
    let second = load(text).unwrap();
    assert_eq!(sorted(&first), sorted(&second));
    assert_eq!(first.bindings().len(), 36 + 3);
}

#[test]
fn loading_twice_gives_the_same_error() {
    let text = "quit: q\nsave s\n";
    assert_eq!(load(text).unwrap_err(), load(text).unwrap_err());
}

#[test]
fn a_later_line_replaces_an_earlier_one() {
    let table = load("quit: q\nsave: q\n").unwrap();
    assert_eq!(table.map(plain('q')), Some(Action::Save));
    assert_eq!(table.bindings().len(), 37);
}

#[test]
fn a_keyfile_replaces_a_default_without_modifiers() {
    let table = load("quit: esc\nhelp: up\n").unwrap();
    let esc = Event::Key(KeyEvent { code: KeyCode::Esc, modifiers: KeyModifiers::empty() });
    let up = Event::Key(KeyEvent { code: KeyCode::Up, modifiers: KeyModifiers::empty() });
    assert_eq!(table.map(esc), Some(Action::Quit));
    assert_eq!(table.map(up), Some(Action::Help));
    assert_eq!(table.bindings().len(), 36);
}

#[test]
fn a_keyfile_never_touches_chords_with_modifiers() {
    let table = load("save: c\nsave: n\nsave: p\nsave: P\n").unwrap();
    assert_eq!(table.map(control('c')), Some(Action::Quit));
    assert_eq!(table.map(control('n')), Some(Action::CreateFreeNode));
    let alt_p = Event::Key(KeyEvent { code: KeyCode::Char('P'), modifiers: KeyModifiers::alt() });
    assert_eq!(table.map(alt_p), Some(Action::SelectParent));
    assert_eq!(table.map(plain('c')), Some(Action::Save));
    assert_eq!(table.map(plain('P')), Some(Action::Save));
}

#[test]
fn one_action_may_have_several_keys() {
    let table = load("quit: q\nquit: x\n").unwrap();
    assert_eq!(table.map(plain('q')), Some(Action::Quit));
    assert_eq!(table.map(plain('x')), Some(Action::Quit));
    assert_eq!(table.map(control('c')), Some(Action::Quit));
}

#[test]
fn tokens_are_trimmed() {
    let table = load("  quit  :   q  \n\tsave\t:\ts\t\n").unwrap();
    assert_eq!(table.map(plain('q')), Some(Action::Quit));
    assert_eq!(table.map(plain('s')), Some(Action::Save));
    let table = load("quit:q").unwrap();
    assert_eq!(table.map(plain('q')), Some(Action::Quit));
}

#[test]
fn named_keys_in_a_keyfile() {
    let table = load("quit: space\nsave: enter\nhelp: tab\nsearch: pgdn\n").unwrap();
    assert_eq!(table.map(plain(' ')), Some(Action::Quit));
    assert_eq!(table.map(plain('\n')), Some(Action::Save));
    assert_eq!(table.map(plain('\t')), Some(Action::Help));
    let page_down = Event::Key(KeyEvent { code: KeyCode::PageDown, modifiers: KeyModifiers::empty() });
    assert_eq!(table.map(page_down), Some(Action::Search));
    let enter = Event::Key(KeyEvent { code: KeyCode::Enter, modifiers: KeyModifiers::empty() });
    assert_eq!(table.map(enter), Some(Action::CreateSibling));
}

#[test]
fn the_line_splits_at_its_first_colon() {
    let table = load("quit: :\n").unwrap();
    assert_eq!(table.map(plain(':')), Some(Action::Quit));
    let table = load("quit::\n").unwrap();
    assert_eq!(table.map(plain(':')), Some(Action::Quit));
    let error = load("quit: q: x\n").unwrap_err();
    assert_eq!(error.kind, SyntaxErrorKind::UnknownKey);
    let error = load(": q\n").unwrap_err();
    assert_eq!(error.kind, SyntaxErrorKind::UnknownAction);
    let error = load("quit:\n").unwrap_err();
    assert_eq!(error.kind, SyntaxErrorKind::UnknownKey);
    let error = load(":\n").unwrap_err();
    assert_eq!(error.kind, SyntaxErrorKind::UnknownAction);
}

#[test]
fn a_modifier_in_a_key_token_is_a_syntax_error() {
    let error = load("quit: C-q\n").unwrap_err();
    assert_eq!(error.kind, SyntaxErrorKind::UnknownKey);
    assert_eq!(error.line, "quit: C-q");
}

#[test]
fn a_hash_is_a_comment_only_at_the_start_of_a_line() {
    let table = load("quit: #\n").unwrap();
    assert_eq!(table.map(plain('#')), Some(Action::Quit));
    let error = load("quit: q # trailing\n").unwrap_err();
    assert_eq!(error.kind, SyntaxErrorKind::UnknownKey);
}

#[test]
fn carriage_returns_before_line_feeds_belong_to_the_line_ending() {
    let table = load("quit: q\r\n# comment\r\n\r\nsave: s\r\n").unwrap();
    assert_eq!(table.map(plain('q')), Some(Action::Quit));
    assert_eq!(table.map(plain('s')), Some(Action::Save));
    let error = load("quit: q\r\nsave s\r\nhelp: h\r\n").unwrap_err();
    assert_eq!(error.line_number, 2);
    assert_eq!(error.line, "save s");
}

#[test]
fn the_last_line_needs_no_line_ending() {
    let table = load("quit: q\nsave: s").unwrap();
    assert_eq!(table.map(plain('s')), Some(Action::Save));
    let error = load("quit: q\nsave s").unwrap_err();
    assert_eq!(error.line_number, 2);
    assert_eq!(error.line, "save s");
}

#[test]
fn a_failed_load_gives_no_table() {
    assert!(load("quit: q\nsave: s\nbogus\n").is_err());
    assert!(load("bogus\nquit: q\n").is_err());
}

#[test]
fn the_error_keeps_the_raw_line() {
    let error = load("ok\n  bogus_action :  q  \n").unwrap_err();
    assert_eq!(error.line_number, 1);
    assert_eq!(error.line, "ok");
    let error = load("  bogus_action :  q  \n").unwrap_err();
    assert_eq!(error.line, "  bogus_action :  q  ");
    let error = load("# é\nsauver: é\n").unwrap_err();
    assert_eq!(error.line_number, 2);
    assert_eq!(error.line, "sauver: é");
}

#[test]
fn a_key_outside_ascii_can_be_bound() {
    let table = load("quit: é\n").unwrap();
    assert_eq!(table.map(plain('é')), Some(Action::Quit));
}

#[test]
fn error_messages() {
    let error = load("quit q").unwrap_err();
    assert_eq!(error.message(), "No colon found on line 1");
    let error = load("quit: nosuchkey").unwrap_err();
    assert_eq!(error.message(), "invalid config at line 1: quit: nosuchkey");
    let error = load("#\n#\nbogus_action: q\n").unwrap_err();
    assert_eq!(error.message(), "invalid config at line 3: bogus_action: q");
}

#[test]
fn error_messages_with_long_line_numbers() {
    let mut text = String::new();
    for _ in 0..1234 {
        text.push_str("# filler\n");
    }
    text.push_str("quit q\n");
    let error = load(&text).unwrap_err();
    assert_eq!(error.line_number, 1235);
    assert_eq!(error.message(), "No colon found on line 1235");
    let error = SyntaxError {
        line_number: 1000000,
        line: "x: y".to_string(),
        kind: SyntaxErrorKind::UnknownAction,
    };
    assert_eq!(error.message(), "invalid config at line 1000000: x: y");
    let error = SyntaxError { line_number: 0, line: String::new(), kind: SyntaxErrorKind::UnknownKey };
    assert_eq!(error.message(), "invalid config at line 0: ");
    let error = SyntaxError {
        line_number: usize::MAX,
        line: String::new(),
        kind: SyntaxErrorKind::MissingSeparator,
    };
    assert_eq!(error.message(), format!("No colon found on line {}", usize::MAX));
}

#[test]
fn a_missing_keyfile_means_the_built_in_table() {
    let table = Config::maybe_parsed_from_env(None).unwrap();
    assert_eq!(sorted(&table), sorted(&Config::default()));
}

#[test]
fn a_named_keyfile_is_loaded() {
    let table = Config::maybe_parsed_from_env(Some("quit: q\n".to_string())).unwrap();
    assert_eq!(table.map(plain('q')), Some(Action::Quit));
    let error = Config::maybe_parsed_from_env(Some("quit q\n".to_string())).unwrap_err();
    assert_eq!(error.line_number, 1);
    assert_eq!(error.kind, SyntaxErrorKind::MissingSeparator);
}

#[test]
fn single_lines() {
    assert_eq!(directive(""), Directive::Skip);
    assert_eq!(directive("#"), Directive::Skip);
    assert_eq!(directive("# quit: q"), Directive::Skip);
    assert_eq!(directive("   "), Directive::Skip);
    assert_eq!(directive(" \t# note"), Directive::Skip);
    assert_eq!(directive("quit: q"), bind(KeyCode::Char('q'), Action::Quit));
    assert_eq!(directive("scroll_up : pgup"), bind(KeyCode::PageUp, Action::ScrollUp));
    assert_eq!(directive("quit q"), Directive::Malformed(SyntaxErrorKind::MissingSeparator));
    assert_eq!(directive("quit: qq"), Directive::Malformed(SyntaxErrorKind::UnknownKey));
    assert_eq!(directive("quits: q"), Directive::Malformed(SyntaxErrorKind::UnknownAction));
    assert_eq!(directive("\u{a0}quit\u{2003}:\u{3000}q\u{2028}"), bind(KeyCode::Char('q'), Action::Quit));
}

#[test]
fn a_keyfile_written_out_twice_gives_the_same_table() {
    let text = "quit: q\nsave: s\nquit: s\nhelp: esc\n";
    let once = load(text).unwrap();
    let twice = load(&format!("{}{}", text, text)).unwrap();
    assert_eq!(sorted(&once), sorted(&twice));
    assert_eq!(once.map(plain('s')), Some(Action::Quit));
    assert_eq!(once.map(plain('q')), Some(Action::Quit));
}

#[test]
fn a_comment_moves_the_error_down_by_one_line() {
    let bare = load("quit: q\nsave s\n").unwrap_err();
    let commented = load("quit: q\n# note\nsave s\n").unwrap_err();
    assert_eq!(bare.line_number, 2);
    assert_eq!(commented.line_number, 3);
    assert_eq!(bare.line, commented.line);
    assert_eq!(bare.kind, commented.kind);
    let after = load("quit: q\nsave s\n# note\n").unwrap_err();
    assert_eq!(after, bare);
}
