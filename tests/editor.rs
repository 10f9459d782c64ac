use initiative_tracker::input::Input;
use initiative_tracker::key::{Key, KeyEvent};

fn press(input: &mut Input, key: Key) -> Option<KeyEvent> {
    input.update(KeyEvent::plain(key))
}

fn type_text(input: &mut Input, text: &str) {
    for c in text.chars() {
        assert_eq!(press(input, Key::Char(c)), None);
    }
}

#[test]
fn typing_inserts_at_cursor() {
    let mut input = Input::new();
    type_text(&mut input, "ac");
    assert_eq!(press(&mut input, Key::Left), None);
    type_text(&mut input, "b");
    assert_eq!(input.as_str(), "abc");
    assert_eq!(input.position(), 2);
}

#[test]
fn backspace_and_delete() {
    let mut input = Input::new();
    type_text(&mut input, "abcd");
    press(&mut input, Key::Left);
    press(&mut input, Key::Left);
    assert_eq!(press(&mut input, Key::Backspace), None);
    assert_eq!(input.as_str(), "acd");
    assert_eq!(input.position(), 1);
    assert_eq!(press(&mut input, Key::Delete), None);
    assert_eq!(input.as_str(), "ad");
    assert_eq!(input.position(), 1);
}

#[test]
fn edits_at_the_edges_do_nothing() {
    let mut input = Input::new();
    assert_eq!(press(&mut input, Key::Backspace), None);
    assert_eq!(press(&mut input, Key::Delete), None);
    assert_eq!(press(&mut input, Key::Left), None);
    assert_eq!(press(&mut input, Key::Right), None);
    assert_eq!(input.as_str(), "");
    assert_eq!(input.position(), 0);
    type_text(&mut input, "xy");
    assert_eq!(press(&mut input, Key::Right), None);
    assert_eq!(input.position(), 2);
    assert_eq!(press(&mut input, Key::Delete), None);
    assert_eq!(input.as_str(), "xy");
}

#[test]
fn cursor_stays_in_buffer() {
    let mut input = Input::new();
    let keys = [
        Key::Char('h'),
        Key::Left,
        Key::Left,
        Key::Left,
        Key::Char('é'),
        Key::Right,
        Key::Right,
        Key::Right,
        Key::Backspace,
        Key::Backspace,
        Key::Backspace,
        Key::Delete,
        Key::Char('z'),
        Key::Left,
        Key::Delete,
        Key::Delete,
    ];
    for key in keys {
        press(&mut input, key);
        assert!(input.position() <= input.as_str().chars().count());
    }
    assert_eq!(input.as_str(), "");
    assert_eq!(input.position(), 0);
}

#[test]
fn multibyte_characters_are_single_positions() {
    let mut input = Input::new();
    type_text(&mut input, "éü");
    press(&mut input, Key::Left);
    press(&mut input, Key::Backspace);
    assert_eq!(input.as_str(), "ü");
    assert_eq!(input.position(), 0);
}

#[test]
fn ignored_key_is_not_consumed() {
    let mut input = Input::new().with_ignore(vec![Key::Char('+')]);
    let plus = KeyEvent::plain(Key::Char('+'));
    assert_eq!(input.update(plus), Some(plus));
    assert_eq!(input.as_str(), "");
    assert_eq!(input.position(), 0);
    type_text(&mut input, "a");
    assert_eq!(input.update(plus), Some(plus));
    assert_eq!(input.as_str(), "a");
}

#[test]
fn control_characters_and_other_keys_are_not_consumed() {
    let mut input = Input::new();
    let ctrl_j = KeyEvent::with_control(Key::Char('j'));
    assert_eq!(input.update(ctrl_j), Some(ctrl_j));
    let enter = KeyEvent::plain(Key::Enter);
    assert_eq!(input.update(enter), Some(enter));
    assert_eq!(input.as_str(), "");
}

#[test]
fn take_twice_is_empty() {
    let mut input = Input::new();
    type_text(&mut input, "hello");
    assert_eq!(input.take(), "hello");
    assert!(input.is_empty());
    assert_eq!(input.position(), 0);
    assert_eq!(input.take(), "");
    assert!(input.is_empty());
    assert_eq!(input.position(), 0);
}

#[test]
fn set_then_take_round_trip() {
    let mut input = Input::new();
    input.set("Aria".to_string());
    assert_eq!(input.position(), 4);
    assert_eq!(input.take(), "Aria");
}

#[test]
fn default_is_empty() {
    let input = Input::default();
    assert!(input.is_empty());
    assert_eq!(input.position(), 0);
}
