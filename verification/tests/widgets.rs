use std::collections::VecDeque;

use common::battery_icon::{level_index, BatteryIcon, BatteryIconVariant, BatteryMetrics, VectorBatteryLayout};
use common::bitmap::Bitmap;
use common::color::Color;
use common::color_picker::ColorPicker;
use common::command::{Command, Value};
use common::geom::{Alignment, Point, Rect};
use common::input::{Key, KeyEvent};
use common::select::Select;
use common::stylesheet::Stylesheet;
use common::toggle::Toggle;

#[test]
fn toggle_flips_on_a() {
    let mut t = Toggle::new(Point::new(100, 10), false, Alignment::Right);
    let mut bubble = VecDeque::new();
    assert!(!t.handle_key_event(KeyEvent::Pressed(Key::B), &mut bubble));
    assert!(bubble.is_empty());
    assert!(t.handle_key_event(KeyEvent::Pressed(Key::A), &mut bubble));
    assert!(t.value());
    assert!(matches!(bubble.pop_back(), Some(Command::ValueChanged(0, Value::Bool(true)))));
    t.set_value(false);
    assert!(!t.value());
}

#[test]
fn toggle_geometry() {
    let styles = Stylesheet::default();
    // The interface font is 36 pixels high, so the bar is 54 wide.
    let t = Toggle::new(Point::new(100, 10), false, Alignment::Right);
    assert_eq!(t.bounding_box(&styles), Rect::new(46, 10, 54, 36));
    let l = Toggle::new(Point::new(100, 10), true, Alignment::Left);
    assert_eq!(l.bounding_box(&styles), Rect::new(100, 10, 54, 36));
    // Margin 6, diameter 24: off at the left end, on at the right end.
    assert_eq!(t.knob(&styles), (Point::new(46 + 6 + 12, 10 + 6 + 12), 12));
    assert_eq!(l.knob(&styles), (Point::new(100 + 54 - 36 + 6 + 12, 28), 12));
}

#[test]
fn color_picker_edits_a_copy() {
    let mut p = ColorPicker::new(Point::new(0, 0), Color::rgba(0x12, 0x34, 0x56, 0x78), Alignment::Right);
    let mut bubble = VecDeque::new();
    assert!(p.handle_key_event(KeyEvent::Pressed(Key::A), &mut bubble));
    assert!(matches!(bubble.back(), Some(Command::TrapFocus)));
    assert_eq!(p.edit_index(), Some(0));
    // Red's high digit: 0x12 -> 0x22.
    p.handle_key_event(KeyEvent::Pressed(Key::Up), &mut bubble);
    assert_eq!(p.shown_color().r(), 0x22);
    // Red's low digit: 0x22 -> 0x21.
    p.handle_key_event(KeyEvent::Pressed(Key::Right), &mut bubble);
    p.handle_key_event(KeyEvent::Pressed(Key::Down), &mut bubble);
    assert_eq!(p.shown_color().r(), 0x21);
    assert_eq!(p.value(), Color::rgba(0x12, 0x34, 0x56, 0x78));
    p.handle_key_event(KeyEvent::Pressed(Key::A), &mut bubble);
    assert_eq!(p.value(), Color::rgba(0x21, 0x34, 0x56, 0x78));
    assert!(matches!(bubble.pop_back(), Some(Command::Unfocus)));
    assert!(matches!(bubble.pop_back(), Some(Command::ValueChanged(0, Value::Color(c))) if c == Color::rgba(0x21, 0x34, 0x56, 0x78)));
}

#[test]
fn color_picker_digits_wrap() {
    let mut p = ColorPicker::new(Point::new(0, 0), Color::rgba(0xff, 0x0f, 0xf0, 0x00), Alignment::Right);
    let mut bubble = VecDeque::new();
    p.handle_key_event(KeyEvent::Pressed(Key::A), &mut bubble);
    p.handle_key_event(KeyEvent::Pressed(Key::Up), &mut bubble);
    assert_eq!(p.shown_color().r(), 0x0f);
    for _ in 0..3 {
        p.handle_key_event(KeyEvent::Pressed(Key::Right), &mut bubble);
    }
    p.handle_key_event(KeyEvent::Pressed(Key::Up), &mut bubble);
    assert_eq!(p.shown_color().g(), 0x00);
    for _ in 0..10 {
        p.handle_key_event(KeyEvent::Pressed(Key::Right), &mut bubble);
    }
    assert_eq!(p.edit_index(), Some(7));
    p.handle_key_event(KeyEvent::Pressed(Key::Down), &mut bubble);
    assert_eq!(p.shown_color().a(), 0x0f);
    // B drops the edit.
    p.handle_key_event(KeyEvent::Pressed(Key::B), &mut bubble);
    assert_eq!(p.edit_index(), None);
    assert_eq!(p.value(), Color::rgba(0xff, 0x0f, 0xf0, 0x00));
}

#[test]
fn select_cycles_options() {
    let values = vec!["a".to_string(), "b".to_string(), "c".to_string()];
    let mut s = Select::new(Point::new(0, 0), 1, values, Alignment::Left);
    assert_eq!(s.value(), "b");
    assert_eq!(s.label(), "b");
    let mut bubble = VecDeque::new();
    assert!(s.handle_key_event(KeyEvent::Pressed(Key::A), &mut bubble));
    assert!(s.handle_key_event(KeyEvent::Pressed(Key::Down), &mut bubble));
    assert!(s.handle_key_event(KeyEvent::Pressed(Key::Right), &mut bubble));
    assert_eq!(s.label(), "a");
    assert_eq!(s.value(), "b");
    assert!(s.handle_key_event(KeyEvent::Pressed(Key::A), &mut bubble));
    assert_eq!(s.value(), "a");
    assert!(matches!(bubble.pop_back(), Some(Command::Unfocus)));
    assert!(matches!(bubble.pop_back(), Some(Command::ValueChanged(0, Value::Int(0)))));
    s.handle_key_event(KeyEvent::Pressed(Key::A), &mut bubble);
    s.handle_key_event(KeyEvent::Pressed(Key::Up), &mut bubble);
    assert_eq!(s.label(), "c");
    s.handle_key_event(KeyEvent::Pressed(Key::B), &mut bubble);
    assert_eq!(s.label(), "a");
    let out_of_range = Select::new(Point::new(0, 0), 5, vec!["x".to_string()], Alignment::Left);
    assert_eq!(out_of_range.label(), "");
}

fn bitmap(w: u32, h: u32) -> Bitmap {
    Bitmap::from_raw(w, h, vec![0; (w * h * 4) as usize]).unwrap()
}

#[test]
fn battery_icon_picks_level() {
    assert_eq!(level_index(0, 4), 0);
    assert_eq!(level_index(25, 4), 0);
    assert_eq!(level_index(26, 4), 1);
    assert_eq!(level_index(100, 4), 3);
    assert_eq!(level_index(100, 1), 0);
    let variant = BatteryIconVariant::Image {
        charging: bitmap(7, 3),
        levels: vec![bitmap(5, 3), bitmap(6, 3)],
    };
    let mut icon = BatteryIcon::new(Point::new(50, 0), variant);
    assert!(icon.should_draw());
    icon.set_state(false, 80);
    assert_eq!(icon.image_to_draw().unwrap().dimensions(), (6, 3));
    assert_eq!(icon.image_size(), Some((5, 3)));
    icon.set_state(true, 80);
    assert_eq!(icon.image_to_draw().unwrap().dimensions(), (7, 3));
    assert_eq!(icon.image_size(), Some((7, 3)));
    assert_eq!(icon.bounding_box(7, 3), Rect::new(43, 0, 7, 3));
    let vector = BatteryIcon::new(Point::new(0, 0), BatteryIconVariant::Vector);
    assert!(vector.image_to_draw().is_none());
}

#[test]
fn vector_battery_layout() {
    // Font size 30: body 30 by 18, stroke 2, cap 4 wide.
    let m = BatteryMetrics { size: 30, body_h: 18, charging_w: 21 };
    let l = VectorBatteryLayout::calculate(Point::new(100, 0), m, false, 100);
    assert_eq!(l.cap, Rect::new(97, 13, 4, 4));
    assert_eq!(l.body, Rect::new(67, 6, 30, 18));
    assert_eq!(l.fill, Some(Rect::new(71, 10, 22, 10)));
    assert_eq!(l.charging_pos, None);
    assert_eq!((l.body_radius, l.inner_radius, l.stroke_width), (8, 4, 2));
    let charging = VectorBatteryLayout::calculate(Point::new(100, 0), m, true, 50);
    assert_eq!(charging.body.x, 67 - 21);
    assert_eq!(charging.fill, Some(Rect::new(50, 10, 10, 10)));
    assert_eq!(charging.charging_pos, Some(Point::new(100, 0)));
    let low = VectorBatteryLayout::calculate(Point::new(100, 0), m, false, 5);
    assert_eq!(low.fill, None);
}

#[test]
fn battery_icon_choice_check() {
    let img = |w: u32| Bitmap::from_raw(w, 3, vec![0; (w * 3 * 4) as usize]).unwrap();
    let mut icon = BatteryIcon::new(Point::new(100, 0), BatteryIconVariant::Image { charging: img(5), levels: vec![img(6)] });
    assert!(icon.fits_choice());
    icon.set_state(false, -1);
    assert!(!icon.fits_choice());
    icon.set_state(true, -1);
    assert!(icon.fits_choice());
    assert_eq!(icon.image_to_draw().unwrap().dimensions(), (5, 3));
}
