use common::geom::{Alignment, Point, Rect, Size};
use common::label::{scroll_text, Label};
use common::stylesheet::StylesheetColor;

#[test]
fn scrolling_text_wraps_round() {
    assert_eq!(scroll_text("abc", 0), "abc     ");
    assert_eq!(scroll_text("abc", 2), "c     ab");
    assert_eq!(scroll_text("abc", 10), "c");
    assert_eq!(scroll_text("abc", 11), "");
}

#[test]
fn label_scrolls_after_the_delay() {
    let mut l = Label::new(Point::new(100, 5), "a long title".to_string(), Alignment::Left, Some(50));
    l.set_layout(Size::new(80, 20), "a long".to_string());
    l.scroll(true);
    assert!(l.needs_layout());
    l.set_layout(Size::new(80, 20), "a long".to_string());
    l.mark_drawn();
    l.update(500_000);
    assert!(!l.needs_layout());
    assert!(!l.should_draw());
    l.update(700_000);
    assert!(l.needs_layout());
    assert!(l.should_draw());
    assert_eq!(l.text_to_fit(), scroll_text("a long title", 2));
}

#[test]
fn label_that_fits_stops_scrolling() {
    let mut l = Label::new(Point::new(100, 5), "hi".to_string(), Alignment::Left, Some(50));
    l.scroll(true);
    l.set_layout(Size::new(30, 20), "hi".to_string());
    l.update(5_000_000);
    assert_eq!(l.text_to_fit(), "hi");
}

#[test]
fn label_positions_by_alignment() {
    let right = Label::new(Point::new(100, 5), "x".to_string(), Alignment::Right, None);
    assert_eq!(right.draw_position(40), Point::new(60, 5));
    let centre = Label::new(Point::new(100, 5), "x".to_string(), Alignment::Center, Some(50));
    assert_eq!(centre.draw_position(40), Point::new(80, 5));
    assert_eq!(centre.bounding_box(Size::new(80, 20)), Rect::new(75, 5, 50, 20));
}

#[test]
fn label_text_and_position_changes() {
    let mut l = Label::new(Point::new(0, 0), "one".to_string(), Alignment::Left, None);
    l.set_layout(Size::new(30, 20), "one".to_string());
    l.mark_drawn();
    l.set_text("one".to_string());
    assert!(!l.should_draw());
    assert!(!l.needs_layout());
    l.set_text("two".to_string());
    assert!(l.should_draw());
    assert!(l.needs_layout());
    assert_eq!(l.text(), "two");
    l.mark_drawn();
    l.set_position(Point::new(0, 0));
    assert!(!l.should_draw());
    l.set_position(Point::new(1, 0));
    assert!(l.should_draw());
    l.color(StylesheetColor::Highlight);
    l.stroke_color(StylesheetColor::Stroke);
    assert_eq!(l.shown_text().map(|s| s.as_str()), None);
}

#[test]
fn scrolling_comes_full_circle() {
    assert_eq!(scroll_text("abc", 8), "abc");
    assert_eq!(scroll_text("abc", 0), "abc     ");
}
