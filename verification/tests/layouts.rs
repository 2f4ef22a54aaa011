use common::color_picker_layout::{color_picker_layout, fits_color_picker, DigitStyle};
use common::datetime::{field_layout, fits_fields, DateTime};
use common::geom::{Point, Rect};
use common::keyboard_layout::{fits_keyboard, keyboard_box, keyboard_layout};

#[test]
fn keyboard_grid_is_centred_above_the_hints() {
    // 640 by 480, keys 36 wide, buttons 32 wide, margin 8.
    assert!(fits_keyboard(640, 480, 36, 32, 8));
    let l = keyboard_layout(640, 480, 36, 32, 8, (2, 1));
    let x0 = (640 - 11 * 36) / 2;
    let y0 = 480 - 5 * 36 - 32 - 16;
    assert_eq!(l.keys.len(), 44);
    assert_eq!(l.keys[0], Rect::new(x0, y0, 36, 36));
    assert_eq!(l.keys[13], Rect::new(x0 + 2 * 36, y0 + 36, 36, 36));
    assert_eq!(l.keys[43], Rect::new(x0 + 10 * 36, y0 + 3 * 36, 36, 36));
    assert_eq!(l.selected_key, Some(13));
    assert_eq!(l.highlight, l.keys[13]);
    assert_eq!(l.space, Rect::new(x0, y0 + 4 * 36, 396, 36));
    assert_eq!(l.background, Rect::new(8, y0 - 36 - 8, 624, 5 * 36 + 36 + 8));
    assert_eq!(l.value_y, y0 - 8 - 36);
    let on_space = keyboard_layout(640, 480, 36, 32, 8, (5, 4));
    assert_eq!(on_space.selected_key, None);
    assert_eq!(on_space.highlight, on_space.space);
    assert!(!fits_keyboard(10, 480, 36, 32, 8));
    assert!(!fits_keyboard(640, 480, 20_000_000, 32, 8));
    assert_eq!(keyboard_box(640, 480, 36, 32, 12), Rect::new(0, 480 - 188 - 32 - 24 - 36 - 12, 640, 188 + 32 + 24));
}

#[test]
fn keyboard_grid_narrower_screen_centres_leftwards() {
    // The grid is wider than the screen: the origin rounds toward zero.
    let l = keyboard_layout(101, 480, 10, 0, 0, (0, 0));
    assert_eq!(l.keys[0].x, -4);
}

#[test]
fn color_picker_digits_run_leftwards() {
    let widths = vec![10, 11, 12, 13, 14, 15, 16, 17];
    assert!(fits_color_picker(Point::new(300, 20), 30, 8, &widths, 9));
    let l = color_picker_layout(Point::new(300, 20), 30, 8, (640, 480), &widths, 9, Some(6));
    assert_eq!(l.swatch, Rect::new(270, 20, 30, 30));
    assert_eq!(l.border_top, Some(Rect::new(270, 20, 30, 1)));
    assert_eq!(l.border_bottom, Some(Rect::new(270, 49, 30, 1)));
    assert_eq!(l.border_left, Some(Rect::new(270, 20, 1, 30)));
    assert_eq!(l.border_right, Some(Rect::new(299, 20, 1, 30)));
    let start = 300 - 30 - 8;
    assert_eq!(l.digits[0], (start - 10, DigitStyle::Focused));
    assert_eq!(l.digits[1], (start - 10 - 1 - 11, DigitStyle::Selected));
    assert_eq!(l.hash_x, start - (10 + 11 + 12 + 13 + 14 + 15 + 16 + 17) - 8 - 9);
    assert!(l.hash_focused);
    let plain = color_picker_layout(Point::new(20, -5), 30, 8, (640, 480), &widths, 9, None);
    assert_eq!(plain.border_top, None);
    assert_eq!(plain.border_bottom, Some(Rect::new(0, 24, 20, 1)));
    assert_eq!(plain.border_left, None);
    assert_eq!(plain.digits[3].1, DigitStyle::Plain);
    assert!(!fits_color_picker(Point::new(300, 20), 30, 8, &vec![1, 2], 9));
}

#[test]
fn datetime_fields_run_leftwards_from_the_anchor() {
    let widths: Vec<u32> = vec![20, 5, 20, 5, 20, 5, 20, 5, 20, 5, 40];
    assert!(fits_fields(500, &widths));
    let l = field_layout(500, &widths, Some(6));
    assert_eq!(l.len(), 11);
    assert_eq!(l[0], (480, DigitStyle::Focused));
    assert_eq!(l[1], (474, DigitStyle::Focused));
    assert_eq!(l[4], (500 - 20 - 5 - 20 - 5 - 20 - 4, DigitStyle::Selected));
    let plain = field_layout(500, &widths, None);
    assert_eq!(plain[10], (500 - 165 - 10, DigitStyle::Plain));
    assert!(!fits_fields(i32::MIN + 100, &widths));
    assert!(!fits_fields(0, &vec![1]));
}

#[test]
fn datetime_field_texts() {
    let t = chrono::NaiveDate::from_ymd_opt(2024, 3, 5).unwrap().and_hms_opt(14, 7, 9).unwrap();
    let d = DateTime::new(Point::new(0, 0), t, common::geom::Alignment::Right);
    assert_eq!(d.field_texts(), vec!["2024", "-", "03", "-", "05", " ", "14", ":", "07", ":", "09"]);
}
