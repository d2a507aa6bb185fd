use gitdash::state::{App, Key, Screen};

fn two_item_app() -> App {
    App::default()
}

#[test]
fn default_state() {
    let a = App::default();
    assert_eq!(a.cursor, 0);
    assert_eq!(a.input, "");
    assert!(!a.editing);
    assert!(!a.exit);
    assert_eq!(a.items, vec!["Push".to_string(), "Status".to_string()]);
    assert_eq!(a.current_screen, Screen::List);
}

#[test]
fn cursor_wraps_down() {
    // items = ["Push","Status"], cursor 0; `j` moves to 1; `j` again wraps to 0.
    let mut a = two_item_app();
    assert_eq!(a.handle_key(Key::Char('j')), None);
    assert_eq!(a.cursor, 1);
    assert_eq!(a.handle_key(Key::Char('j')), None);
    assert_eq!(a.cursor, 0);
}

#[test]
fn cursor_wraps_up() {
    let mut a = two_item_app();
    assert_eq!(a.handle_key(Key::Char('k')), None);
    assert_eq!(a.cursor, 1);
    assert_eq!(a.handle_key(Key::Char('k')), None);
    assert_eq!(a.cursor, 0);
}

#[test]
fn down_then_up_returns() {
    let mut a = two_item_app();
    a.move_cursor_down();
    a.move_cursor_up();
    assert_eq!(a.cursor, 0);
    a.move_cursor_up();
    a.move_cursor_down();
    assert_eq!(a.cursor, 0);
}

#[test]
fn cursor_on_empty_menu_stays_put() {
    let mut a = App { items: Vec::new(), cursor: 0, ..App::default() };
    a.move_cursor_down();
    assert_eq!(a.cursor, 0);
    a.move_cursor_up();
    assert_eq!(a.cursor, 0);
}

#[test]
fn quit_key_sets_exit() {
    let mut a = two_item_app();
    assert_eq!(a.handle_key(Key::Char('q')), None);
    assert!(a.exit);
}

#[test]
fn confirm_on_first_item_enters_editor() {
    // Confirm on cursor index 0 yields the Input screen with editing on.
    let mut a = two_item_app();
    assert_eq!(a.handle_key(Key::Enter), None);
    assert_eq!(a.current_screen, Screen::Input);
    assert!(a.editing);
}

#[test]
fn confirm_on_second_item_shows_status() {
    // Confirm on cursor index 1 yields the Status screen, from any prior screen.
    for prior in [Screen::List, Screen::Status, Screen::Input] {
        let mut a = App { cursor: 1, current_screen: prior, ..App::default() };
        assert_eq!(a.handle_key(Key::Enter), None);
        assert_eq!(a.current_screen, Screen::Status);
        assert!(!a.editing);
    }
}

#[test]
fn confirm_past_menu_does_nothing() {
    let mut a = App {
        cursor: 2,
        items: vec!["a".to_string(), "b".to_string(), "c".to_string()],
        ..App::default()
    };
    a.confirm();
    assert_eq!(a.current_screen, Screen::List);
    assert!(!a.editing);
    assert_eq!(a.cursor, 2);
}

#[test]
fn cancel_returns_to_list_idempotently() {
    let mut a = App { current_screen: Screen::Status, ..App::default() };
    assert_eq!(a.handle_key(Key::Esc), None);
    assert_eq!(a.current_screen, Screen::List);
    assert_eq!(a.handle_key(Key::Esc), None);
    assert_eq!(a.current_screen, Screen::List);
}

#[test]
fn typing_builds_the_buffer() {
    let mut a = two_item_app();
    a.handle_key(Key::Enter);
    for c in "fix bug".chars() {
        assert_eq!(a.handle_key(Key::Char(c)), None);
    }
    assert_eq!(a.input, "fix bug");
}

#[test]
fn backspace_removes_last_character() {
    let mut a = App { editing: true, current_screen: Screen::Input, ..App::default() };
    a.input_push('h');
    a.input_push('i');
    assert_eq!(a.handle_key(Key::Backspace), None);
    assert_eq!(a.input, "h");
    assert_eq!(a.handle_key(Key::Backspace), None);
    assert_eq!(a.input, "");
    assert_eq!(a.handle_key(Key::Backspace), None);
    assert_eq!(a.input, "");
}

#[test]
fn escape_stops_editing_but_keeps_screen() {
    let mut a = two_item_app();
    a.handle_key(Key::Enter);
    assert!(a.editing);
    assert_eq!(a.handle_key(Key::Esc), None);
    assert!(!a.editing);
    assert_eq!(a.current_screen, Screen::Input);
}

#[test]
fn submit_empty_buffer_is_a_no_op() {
    let mut a = two_item_app();
    a.handle_key(Key::Enter);
    assert_eq!(a.handle_key(Key::Enter), None);
    assert_eq!(a.current_screen, Screen::Input);
    assert!(a.editing);
    assert_eq!(a.input, "");
}

#[test]
fn submit_whitespace_buffer_is_a_no_op() {
    let mut a = two_item_app();
    a.handle_key(Key::Enter);
    for c in " \t\n \u{a0}".chars() {
        a.handle_key(Key::Char(c));
    }
    assert_eq!(a.handle_key(Key::Enter), None);
    assert_eq!(a.current_screen, Screen::Input);
    assert!(a.editing);
    assert_eq!(a.input, " \t\n \u{a0}");
}

#[test]
fn commit_flow_scenario() {
    // cursor 0, Enter opens the editor; type "fix bug"; Enter hands the
    // message out, empties the buffer and returns to the menu.
    let mut a = two_item_app();
    assert_eq!(a.handle_key(Key::Enter), None);
    assert_eq!(a.current_screen, Screen::Input);
    assert!(a.editing);
    for c in "fix bug".chars() {
        a.handle_key(Key::Char(c));
    }
    let cmd = a.handle_key(Key::Enter);
    assert_eq!(cmd, Some("fix bug".to_string()));
    assert_eq!(a.input, "");
    assert!(!a.editing);
    assert_eq!(a.current_screen, Screen::List);
}

#[test]
fn submit_keeps_cursor_and_items() {
    let mut a = App {
        cursor: 1,
        editing: true,
        current_screen: Screen::Input,
        input: "msg".to_string(),
        ..App::default()
    };
    let cmd = a.submit();
    assert_eq!(cmd, Some("msg".to_string()));
    assert_eq!(a.cursor, 1);
    assert_eq!(a.items, vec!["Push".to_string(), "Status".to_string()]);
    assert!(!a.exit);
}

#[test]
fn other_keys_change_nothing() {
    let mut a = two_item_app();
    assert_eq!(a.handle_key(Key::Other), None);
    assert_eq!(a.handle_key(Key::Backspace), None);
    assert_eq!(a.handle_key(Key::Char('x')), None);
    assert_eq!(a.cursor, 0);
    assert_eq!(a.current_screen, Screen::List);
    assert!(!a.exit);
    assert_eq!(a.input, "");

    let mut b = App { editing: true, current_screen: Screen::Input, ..App::default() };
    assert_eq!(b.handle_key(Key::Other), None);
    assert!(b.editing);
    assert_eq!(b.current_screen, Screen::Input);
    assert_eq!(b.input, "");
}
