use std::collections::VecDeque;

use chrono::{NaiveDate, NaiveDateTime};
use common::command::{Command, Value};
use common::datetime::DateTime;
use common::geom::{Alignment, Point};
use common::input::{Key, KeyEvent};

fn at(y: i32, mo: u32, d: u32, h: u32, mi: u32, s: u32) -> NaiveDateTime {
    NaiveDate::from_ymd_opt(y, mo, d).unwrap().and_hms_opt(h, mi, s).unwrap()
}

fn press(d: &mut DateTime, bubble: &mut VecDeque<Command>, key: Key) -> bool {
    d.handle_key_event(KeyEvent::Pressed(key), bubble)
}

#[test]
fn editing_starts_on_the_hour() {
    let mut d = DateTime::new(Point::new(0, 0), at(2024, 1, 31, 23, 59, 59), Alignment::Right);
    let mut bubble = VecDeque::new();
    assert!(press(&mut d, &mut bubble, Key::Select));
    assert!(matches!(bubble.back(), Some(Command::TrapFocus)));
    assert_eq!(d.edit_index(), Some(6));
    assert!(press(&mut d, &mut bubble, Key::Up));
    assert_eq!(d.shown_value(), at(2024, 2, 1, 0, 59, 59));
    assert_eq!(d.value(), at(2024, 1, 31, 23, 59, 59));
}

#[test]
fn fields_step_with_the_calendar() {
    let mut d = DateTime::new(Point::new(0, 0), at(2024, 1, 31, 12, 0, 0), Alignment::Right);
    let mut bubble = VecDeque::new();
    press(&mut d, &mut bubble, Key::A);
    // From the hour, two fields left is the month.
    press(&mut d, &mut bubble, Key::Left);
    press(&mut d, &mut bubble, Key::Left);
    assert_eq!(d.edit_index(), Some(2));
    press(&mut d, &mut bubble, Key::Up);
    assert_eq!(d.shown_value(), at(2024, 2, 29, 12, 0, 0));
    press(&mut d, &mut bubble, Key::Left);
    press(&mut d, &mut bubble, Key::Left);
    assert_eq!(d.edit_index(), Some(0));
    press(&mut d, &mut bubble, Key::Up);
    assert_eq!(d.shown_value(), at(2025, 2, 28, 12, 0, 0));
    for _ in 0..10 {
        press(&mut d, &mut bubble, Key::Right);
    }
    assert_eq!(d.edit_index(), Some(10));
    press(&mut d, &mut bubble, Key::Down);
    assert_eq!(d.shown_value(), at(2025, 2, 28, 11, 59, 59));
    assert!(press(&mut d, &mut bubble, Key::A));
    assert_eq!(d.value(), at(2025, 2, 28, 11, 59, 59));
    assert!(matches!(bubble.pop_back(), Some(Command::Unfocus)));
    assert!(matches!(bubble.pop_back(), Some(Command::ValueChanged(0, Value::DateTime(v))) if v == at(2025, 2, 28, 11, 59, 59)));
}

#[test]
fn b_drops_the_edit() {
    let mut d = DateTime::new(Point::new(0, 0), at(2000, 6, 15, 8, 30, 0), Alignment::Right);
    let mut bubble = VecDeque::new();
    press(&mut d, &mut bubble, Key::A);
    press(&mut d, &mut bubble, Key::Right);
    assert_eq!(d.edit_index(), Some(8));
    press(&mut d, &mut bubble, Key::Down);
    assert_eq!(d.shown_value(), at(2000, 6, 15, 8, 29, 0));
    assert!(!press(&mut d, &mut bubble, Key::X));
    assert!(press(&mut d, &mut bubble, Key::B));
    assert_eq!(d.edit_index(), None);
    assert_eq!(d.value(), at(2000, 6, 15, 8, 30, 0));
}
