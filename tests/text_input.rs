use portscan_core::text_input::TextInput;

#[test]
fn insert_and_move() {
    let mut t = TextInput::new();
    assert!(t.is_empty());
    t.insert_char('a');
    t.insert_char('c');
    t.move_cursor_left();
    t.insert_char('b');
    assert_eq!(t.text(), "abc");
    assert_eq!(t.cursor(), 2);
    t.move_cursor_right();
    t.move_cursor_right();
    assert_eq!(t.cursor(), 3);
    t.set_cursor(99);
    assert_eq!(t.cursor(), 3);
    t.set_cursor(0);
    t.move_cursor_left();
    assert_eq!(t.cursor(), 0);
}

#[test]
fn with_text_and_unicode() {
    let mut t = TextInput::with_text("héllo".to_string());
    assert_eq!(t.cursor(), 5);
    t.set_cursor(2);
    t.insert_char('é');
    assert_eq!(t.text(), "hééllo");
    t.set_text("xyz".to_string());
    assert_eq!(t.text(), "xyz");
    assert_eq!(t.cursor(), 3);
    t.clear();
    assert_eq!(t.text(), "");
    assert_eq!(t.cursor(), 0);
}

#[test]
fn remove_chars() {
    let mut t = TextInput::with_text("abcd".to_string());
    t.remove_previous_char();
    assert_eq!(t.text(), "abc");
    t.set_cursor(0);
    t.remove_previous_char();
    assert_eq!(t.text(), "abc");
    t.remove_next_char();
    assert_eq!(t.text(), "bc");
    assert_eq!(t.cursor(), 0);
    t.set_cursor(2);
    t.remove_next_char();
    assert_eq!(t.text(), "bc");
}

#[test]
fn word_deletion() {
    let mut t = TextInput::with_text("10.0.0.1  example.com  ".to_string());
    t.delete_previous_word();
    assert_eq!(t.text(), "10.0.0.1  ");
    assert_eq!(t.cursor(), 10);
    t.set_cursor(0);
    t.delete_next_word();
    assert_eq!(t.text(), "  ");
    let mut u = TextInput::with_text("a b".to_string());
    u.set_cursor(1);
    u.delete_next_word();
    assert_eq!(u.text(), "a");
}

#[test]
fn word_motion() {
    let mut t = TextInput::with_text("one two  three".to_string());
    t.move_cursor_to_previous_word();
    assert_eq!(t.cursor(), 9);
    t.move_cursor_to_previous_word();
    assert_eq!(t.cursor(), 4);
    t.move_cursor_to_next_word();
    assert_eq!(t.cursor(), 9);
    t.set_cursor(0);
    t.move_cursor_to_next_word();
    assert_eq!(t.cursor(), 4);
    assert_eq!(t.text(), "one two  three");
}

#[test]
fn paste_inserts_at_cursor() {
    let mut t = TextInput::with_text("ad".to_string());
    t.set_cursor(1);
    t.insert_str("bc");
    assert_eq!(t.text(), "abcd");
    assert_eq!(t.cursor(), 3);
}
