use common::geom::{Point, Rect};
use common::wifi_indicator::{reading_due, WifiIndicator};

#[test]
fn wifi_indicator_redraws_only_on_change() {
    let mut w = WifiIndicator::new(Point::new(500, 0), true, false);
    assert!(w.is_shown());
    assert!(!w.connected());
    assert!(w.should_draw());
    w.mark_drawn();
    assert!(!w.should_draw());
    w.refresh(true, false);
    assert!(!w.should_draw());
    w.refresh(true, true);
    assert!(w.connected());
    assert!(w.should_draw());
    w.mark_drawn();
    w.refresh(false, true);
    assert!(!w.is_shown());
    assert!(!w.connected());
    assert!(!w.should_draw());
    assert_eq!(w.bounding_box(Rect::new(480, 0, 20, 20)), Rect::new(0, 0, 0, 0));
    w.refresh(true, true);
    assert_eq!(w.bounding_box(Rect::new(480, 0, 20, 20)), Rect::new(480, 0, 20, 20));
    assert!(w.should_draw());
}

#[test]
fn wifi_reading_is_due_after_the_interval() {
    assert!(!reading_due(999_999, 1_000_000));
    assert!(reading_due(1_000_000, 1_000_000));
}
