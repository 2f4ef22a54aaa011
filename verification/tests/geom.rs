use common::geom::{Alignment, Point, Rect, Size};

#[test]
fn constructors() {
    assert_eq!(Point::new(3, -4), Point { x: 3, y: -4 });
    assert_eq!(Point::zero(), Point { x: 0, y: 0 });
    assert_eq!(Size::new(5, 6), Size { w: 5, h: 6 });
    assert_eq!(Size::zero(), Size { w: 0, h: 0 });
    assert_eq!(Rect::zero(), Rect::new(0, 0, 0, 0));
    assert_eq!(Point::default(), Point::zero());
}

#[test]
fn rect_edges() {
    let r = Rect::new(10, 20, 30, 40);
    assert_eq!(r.top_left(), Point::new(10, 20));
    assert_eq!(r.size(), Size::new(30, 40));
    assert_eq!(r.right(), 40);
    assert_eq!(r.bottom(), 60);
}

#[test]
fn union_covers_both() {
    let a = Rect::new(0, 0, 10, 10);
    let b = Rect::new(5, -5, 10, 10);
    assert_eq!(a.union(&b), Rect::new(0, -5, 15, 15));
    assert_eq!(b.union(&a), Rect::new(0, -5, 15, 15));
    let empty = Rect::new(100, 100, 0, 5);
    assert_eq!(a.union(&empty), a);
    assert_eq!(empty.union(&a), a);
}

#[test]
fn intersection_of_overlapping() {
    let a = Rect::new(0, 0, 10, 10);
    let b = Rect::new(5, 5, 10, 10);
    assert_eq!(a.intersection(&b), Rect::new(5, 5, 5, 5));
    assert_eq!(b.intersection(&a), Rect::new(5, 5, 5, 5));
    assert_eq!(a.intersection(&a), a);
}

#[test]
fn alignment_signs() {
    assert_eq!(Alignment::Left.sign(), 1);
    assert_eq!(Alignment::Center.sign(), 0);
    assert_eq!(Alignment::Right.sign(), -1);
}
