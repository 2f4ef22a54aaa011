use common::input::{Key, KeyEvent};
use common::screenshot_viewer::{
    compose_caption, format_filename, is_screenshot, screenshot_order, split_last_dash, step_index,
    ScreenshotViewer, ViewerAction,
};
use common::widgets::button::{Button, Event as ButtonEvent, Focus};
use common::widgets::column::{Column, Event as ColumnEvent};

#[test]
fn step_wraps_at_both_ends() {
    assert_eq!(step_index(0, -1, 3), 2);
    assert_eq!(step_index(2, 1, 3), 0);
    assert_eq!(step_index(1, 1, 3), 2);
    assert_eq!(step_index(1, -1, 3), 0);
}

#[test]
fn viewer_pages_toggles_and_exits() {
    let mut v = ScreenshotViewer::new(3);
    assert_eq!(v.current_index(), 0);
    assert!(v.ui_visible());
    v.mark_drawn();
    assert_eq!(v.handle_key_event(KeyEvent::Pressed(Key::Left)), ViewerAction::Moved);
    assert_eq!(v.current_index(), 2);
    assert!(v.should_draw());
    assert_eq!(v.handle_key_event(KeyEvent::Autorepeat(Key::Down)), ViewerAction::Moved);
    assert_eq!(v.current_index(), 0);
    assert_eq!(v.handle_key_event(KeyEvent::Pressed(Key::Y)), ViewerAction::ToggledUi);
    assert!(!v.ui_visible());
    assert_eq!(v.handle_key_event(KeyEvent::Released(Key::Y)), ViewerAction::Ignored);
    assert_eq!(v.handle_key_event(KeyEvent::Pressed(Key::B)), ViewerAction::Exit);
    assert_eq!(v.handle_key_event(KeyEvent::Pressed(Key::A)), ViewerAction::Ignored);
}

#[test]
fn viewer_without_screenshots_stays_put() {
    let mut v = ScreenshotViewer::new(0);
    assert!(v.is_empty());
    assert_eq!(v.handle_key_event(KeyEvent::Pressed(Key::Right)), ViewerAction::Moved);
    assert_eq!(v.current_index(), 0);
}

#[test]
fn caption_parts() {
    assert_eq!(split_last_dash("a-b-c"), Some(("a-b", "c")));
    assert_eq!(split_last_dash("abc"), None);
    assert_eq!(compose_caption("x", "Game", Some("1 Jan".to_string())), "Game - 1 Jan");
    assert_eq!(compose_caption("x", "Game", None), "x");
}

#[test]
fn captions_of_screenshot_names() {
    assert_eq!(
        format_filename("2024-03-05_14-07-09-RetroArch"),
        "RetroArch - 5 Mar 2024 14:07"
    );
    assert_eq!(
        format_filename("2024-03-05_14-07-09 - Game Boy"),
        "Game Boy - 5 Mar 2024 14:07"
    );
    assert_eq!(
        format_filename("\t2024-03-05_14-07-09\u{3000}-\u{a0}Game Boy \n"),
        "Game Boy - 5 Mar 2024 14:07"
    );
    assert_eq!(format_filename("holiday"), "holiday");
    assert_eq!(format_filename("not a date-Game"), "not a date-Game");
}

#[derive(Debug, PartialEq)]
enum Msg {
    Focused,
    Unfocused,
}

impl Focus for Msg {
    fn focus() -> Self {
        Msg::Focused
    }

    fn unfocus() -> Self {
        Msg::Unfocused
    }
}

#[test]
fn button_focus_tells_the_application() {
    let mut b = Button::new();
    assert!(!b.is_focused());
    assert_eq!(b.update::<Msg>(ButtonEvent::Focus), Some(Msg::Focused));
    assert!(b.is_focused());
    assert_eq!(b.update::<Msg>(ButtonEvent::Unfocus), Some(Msg::Unfocused));
    assert!(!b.is_focused());
}

#[test]
fn column_focus_is_silent() {
    let mut c = Column::new();
    assert_eq!(c.update::<Msg>(ColumnEvent::Focused), None);
    assert!(c.is_focused());
    assert_eq!(c.update::<Msg>(ColumnEvent::Unfocused), None);
    assert!(!c.is_focused());
}

#[test]
fn screenshots_are_filtered_and_ordered_newest_first() {
    assert!(is_screenshot("a.png"));
    assert!(is_screenshot("b.JPG"));
    assert!(is_screenshot("c.JpEg"));
    assert!(is_screenshot("d.bmp"));
    assert!(is_screenshot("e.tar.png"));
    assert!(!is_screenshot(".png"));
    assert!(!is_screenshot("f.gif"));
    assert!(!is_screenshot("png"));
    assert!(!is_screenshot("g.png."));
    let files = vec![
        ("old.png".to_string(), Some(10)),
        ("notes.txt".to_string(), Some(50)),
        ("new.jpg".to_string(), Some(30)),
        ("undated.bmp".to_string(), None),
        ("same1.png".to_string(), Some(20)),
        ("same2.png".to_string(), Some(20)),
        ("undated2.PNG".to_string(), None),
    ];
    assert_eq!(screenshot_order(&files), vec![3, 6, 2, 4, 5, 0]);
    assert!(screenshot_order(&Vec::new()).is_empty());
}
