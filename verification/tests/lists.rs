use common::carousel_list::CarouselList;
use common::widgets::button::Button;
use common::dynamic_scroll_list::DynamicScrollList;
use common::geom::{Alignment, Point, Rect};
use common::input::{Key, KeyEvent};
use common::list::List;
use common::stylesheet::Stylesheet;

fn list(n: usize) -> List<u32> {
    List::new(Rect::new(0, 0, 100, 100), (0..n as u32).collect(), Alignment::Left, 4)
}

#[test]
fn list_up_wraps_to_last() {
    let mut l = list(3);
    assert_eq!(l.selected(), 0);
    assert!(l.handle_key_event(KeyEvent::Pressed(Key::Up)));
    assert_eq!(l.selected(), 2);
    assert!(l.handle_key_event(KeyEvent::Autorepeat(Key::Down)));
    assert_eq!(l.selected(), 0);
    assert!(l.handle_key_event(KeyEvent::Pressed(Key::Down)));
    assert!(l.handle_key_event(KeyEvent::Pressed(Key::Down)));
    assert!(l.handle_key_event(KeyEvent::Pressed(Key::Down)));
    assert_eq!(l.selected(), 0);
}

#[test]
fn list_pages_stop_at_ends() {
    let mut l = list(8);
    assert!(l.handle_key_event(KeyEvent::Pressed(Key::Right)));
    assert_eq!(l.selected(), 5);
    assert!(l.handle_key_event(KeyEvent::Pressed(Key::Right)));
    assert_eq!(l.selected(), 7);
    assert!(l.handle_key_event(KeyEvent::Pressed(Key::Left)));
    assert_eq!(l.selected(), 2);
    assert!(l.handle_key_event(KeyEvent::Pressed(Key::Left)));
    assert_eq!(l.selected(), 0);
    assert!(!l.handle_key_event(KeyEvent::Pressed(Key::A)));
    assert!(!l.handle_key_event(KeyEvent::Released(Key::Up)));
    assert_eq!(l.selected(), 0);
}

#[test]
fn list_down_undoes_up() {
    for n in 1..6 {
        for s in 0..n {
            let mut l = list(n);
            l.select(s);
            l.handle_key_event(KeyEvent::Pressed(Key::Up));
            l.handle_key_event(KeyEvent::Pressed(Key::Down));
            assert_eq!(l.selected(), s);
        }
    }
}

#[test]
fn list_layout_stacks_entries() {
    let mut l = list(3);
    let positions = l.layout(&vec![10, 20, 30]).unwrap();
    assert_eq!(positions, vec![Point::new(12, 8), Point::new(12, 30), Point::new(12, 62)]);
    assert!(l.layout(&vec![10, 20, 30]).is_none());
    l.set_position(Point::new(5, 5));
    assert_eq!(l.bounding_box(), Rect::new(5, 5, 100, 100));
    assert!(l.layout(&vec![10, 20, 30]).is_some());
}

fn carousel(n: usize) -> CarouselList<Button> {
    // 100 pixels hold three entries of 30 with a margin of 3.
    CarouselList::new(Rect::new(0, 0, 100, 50), (0..n).map(|_| Button::new()).collect(), Alignment::Center, 30, 3)
}

fn focused(c: &CarouselList<Button>) -> Vec<usize> {
    c.children().iter().enumerate().filter(|(_, b)| b.is_focused()).map(|(i, _)| i).collect()
}

#[test]
fn carousel_moves_the_focus_with_the_selection() {
    let mut c = carousel(10);
    assert_eq!(focused(&c), vec![0]);
    c.select(5);
    assert_eq!(focused(&c), vec![5]);
    c.select(5);
    assert_eq!(focused(&c), vec![5]);
    c.select(100);
    assert_eq!(focused(&c), vec![9]);
    assert!(c.handle_key_event(KeyEvent::Pressed(Key::L)));
    assert_eq!(focused(&c), vec![4]);
    let mut empty = carousel(0);
    empty.select(3);
    assert!(focused(&empty).is_empty());
}

#[test]
fn carousel_scrolls_to_keep_selection_in_view() {
    let mut c = carousel(10);
    assert_eq!(c.visible_count(), 3);
    assert_eq!(c.visible_range(), (0, 4));
    c.select(5);
    assert_eq!((c.selected(), c.left()), (5, 3));
    assert_eq!(c.visible_range(), (3, 7));
    c.select(4);
    assert_eq!((c.selected(), c.left()), (4, 3));
    c.select(1);
    assert_eq!((c.selected(), c.left()), (1, 1));
    c.select(100);
    assert_eq!((c.selected(), c.left()), (9, 7));
    assert_eq!(c.visible_range(), (7, 10));
}

#[test]
fn carousel_keys() {
    let mut c = carousel(10);
    assert!(c.handle_key_event(KeyEvent::Pressed(Key::Left)));
    assert_eq!(c.selected(), 0);
    assert!(c.handle_key_event(KeyEvent::Pressed(Key::R)));
    assert_eq!(c.selected(), 5);
    assert!(c.handle_key_event(KeyEvent::Autorepeat(Key::Right)));
    assert_eq!(c.selected(), 6);
    assert!(c.handle_key_event(KeyEvent::Pressed(Key::L)));
    assert_eq!(c.selected(), 1);
    assert!(!c.handle_key_event(KeyEvent::Pressed(Key::Up)));
    let mut empty = carousel(0);
    assert!(!empty.handle_key_event(KeyEvent::Pressed(Key::Right)));
    assert_eq!(empty.visible_range(), (0, 0));
}

#[test]
fn carousel_layout_places_entries_side_by_side() {
    let mut c = carousel(10);
    c.select(5);
    let positions = c.layout_children(12);
    assert_eq!(
        positions,
        vec![Point::new(12, 25), Point::new(45, 25), Point::new(78, 25), Point::new(111, 25)]
    );
}

#[test]
fn carousel_background() {
    let mut c = carousel(2);
    assert_eq!(c.background_color(), None);
    c.set_background_color(Some(common::stylesheet::StylesheetColor::Highlight));
    assert_eq!(c.background_color(), Some(common::stylesheet::StylesheetColor::Highlight));
}

fn scroll_list(n: usize) -> DynamicScrollList<u32> {
    DynamicScrollList::new(Rect::new(0, 0, 100, 50), (0..n as u32).collect(), Alignment::Left, 2)
}

#[test]
fn dynamic_list_scrolls_selection_into_view() {
    let styles = Stylesheet::default();
    let mut l = scroll_list(5);
    // Each entry takes 20 + 2 + 8 = 30 pixels.
    l.recalculate_heights(&vec![20, 20, 20, 20, 20], &styles);
    assert_eq!(l.visible_range(), (0, 2));
    l.select(2);
    // Entry 2 spans 60..90, so the view scrolls to 40.
    assert_eq!(l.scroll_offset(), 40);
    assert_eq!(l.visible_range(), (1, 3));
    l.select(0);
    assert_eq!(l.scroll_offset(), 0);
    l.select(99);
    assert_eq!(l.selected(), 4);
    assert_eq!(l.scroll_offset(), 100);
}

#[test]
fn dynamic_list_keys() {
    let styles = Stylesheet::default();
    let mut l = scroll_list(5);
    l.recalculate_heights(&vec![20, 20, 20, 20, 20], &styles);
    assert!(l.handle_key_event(KeyEvent::Pressed(Key::Up)));
    assert_eq!(l.selected(), 4);
    assert!(l.handle_key_event(KeyEvent::Pressed(Key::Down)));
    assert_eq!(l.selected(), 0);
    assert!(l.handle_key_event(KeyEvent::Pressed(Key::R)));
    assert_eq!(l.selected(), 4);
    assert!(l.handle_key_event(KeyEvent::Pressed(Key::L)));
    assert_eq!(l.selected(), 0);
    assert!(!l.handle_key_event(KeyEvent::Pressed(Key::Left)));
    let mut empty = scroll_list(0);
    assert!(!empty.handle_key_event(KeyEvent::Pressed(Key::Down)));
    assert_eq!(empty.visible_range(), (0, 0));
}

#[test]
fn dynamic_list_layout_measures_first() {
    let styles = Stylesheet::default();
    let mut l = scroll_list(3);
    let positions = l.layout(&vec![10, 20, 30], &styles).unwrap();
    // Heights are measured (all were zero); each entry is followed by 2 + 8 pixels.
    assert_eq!(positions, vec![Point::new(12, 8), Point::new(12, 28), Point::new(12, 58)]);
    assert!(l.layout(&vec![10, 20, 30], &styles).is_none());
}
