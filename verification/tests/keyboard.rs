use std::collections::VecDeque;

use common::command::{Command, Value};
use common::input::{Key, KeyEvent};
use common::keyboard::{masked_value, Keyboard, KeyboardKey, KeyboardMode};

fn press(k: &mut Keyboard, key: Key) {
    let mut commands = Vec::new();
    let mut bubble = VecDeque::new();
    assert!(k.handle_key_event(KeyEvent::Pressed(key), &mut commands, &mut bubble));
}

#[test]
fn keys_in_each_layer() {
    let q = KeyboardKey::from_repr(11).unwrap();
    assert_eq!(q, KeyboardKey::Q);
    assert_eq!(q.lowercase(), "q");
    assert_eq!(q.uppercase(), "Q");
    assert_eq!(q.symbol(), "!");
    assert_eq!(KeyboardKey::Backslash.key(KeyboardMode::Lowercase), "\\");
    assert_eq!(KeyboardKey::Quote.key(KeyboardMode::Uppercase), "\"");
    assert_eq!(KeyboardKey::N.key(KeyboardMode::Symbols), "'");
    assert_eq!(KeyboardKey::from_repr(44), Some(KeyboardKey::Space));
    assert_eq!(KeyboardKey::from_repr(45), None);
}

#[test]
fn typing_moves_and_types() {
    let mut k = Keyboard::new(String::from("ab"), false);
    assert_eq!(k.cursor(), (5, 2));
    // Row 2, column 5 is "h".
    press(&mut k, Key::A);
    assert_eq!(k.value(), "abh");
    press(&mut k, Key::Up);
    press(&mut k, Key::Left);
    assert_eq!(k.cursor(), (4, 1));
    press(&mut k, Key::Select);
    assert_eq!(k.mode(), KeyboardMode::Uppercase);
    press(&mut k, Key::A);
    assert_eq!(k.value(), "abhT");
    press(&mut k, Key::R);
    press(&mut k, Key::L);
    assert_eq!(k.value(), "ab");
    press(&mut k, Key::X);
    assert_eq!(k.value(), "");
    press(&mut k, Key::L);
    assert_eq!(k.value(), "");
}

#[test]
fn cursor_wraps_and_space_bar_types_space() {
    let mut k = Keyboard::new(String::new(), false);
    press(&mut k, Key::Down);
    press(&mut k, Key::Down);
    assert_eq!(k.cursor(), (5, 4));
    press(&mut k, Key::A);
    assert_eq!(k.value(), " ");
    press(&mut k, Key::Down);
    assert_eq!(k.cursor(), (5, 0));
    for _ in 0..6 {
        press(&mut k, Key::Right);
    }
    assert_eq!(k.cursor(), (0, 0));
    press(&mut k, Key::Left);
    assert_eq!(k.cursor(), (10, 0));
    press(&mut k, Key::Select);
    press(&mut k, Key::Select);
    press(&mut k, Key::Select);
    assert_eq!(k.mode(), KeyboardMode::Lowercase);
}

#[test]
fn start_reports_value_and_closes() {
    let mut k = Keyboard::new(String::from("wifi"), true);
    let mut commands = Vec::new();
    let mut bubble = VecDeque::new();
    assert!(k.handle_key_event(KeyEvent::Pressed(Key::Start), &mut commands, &mut bubble));
    assert!(matches!(commands.last(), Some(Command::Redraw)));
    assert!(matches!(bubble.pop_back(), Some(Command::CloseView)));
    assert!(matches!(bubble.pop_back(), Some(Command::ValueChanged(0, Value::String(s))) if s == "wifi"));
    let mut commands = Vec::new();
    let mut bubble = VecDeque::new();
    assert!(k.handle_key_event(KeyEvent::Pressed(Key::B), &mut commands, &mut bubble));
    assert_eq!(bubble.len(), 1);
    assert_eq!(commands.len(), 1);
    assert!(k.handle_key_event(KeyEvent::Released(Key::A), &mut commands, &mut bubble));
    assert_eq!(k.value(), "wifi");
}

#[test]
fn password_is_masked_by_bytes() {
    assert_eq!(masked_value("abc", true), "***");
    assert_eq!(masked_value("é", true), "**");
    assert_eq!(masked_value("abc", false), "abc");
    let k = Keyboard::new(String::from("pw"), true);
    assert_eq!(k.masked_value(), "**");
}
