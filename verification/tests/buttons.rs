use common::button_hint::{hints_bounding_box, layout_left, layout_right, rows_origin};
use common::button_icon::{button_face, icon_file_name, vector_button, vector_size, ButtonFace, ButtonShape};
use common::geom::{Point, Rect};
use common::input::Key;

#[test]
fn icon_files_by_button() {
    assert_eq!(icon_file_name(Key::VolUp), Some("button-volup.png"));
    assert_eq!(icon_file_name(Key::A), Some("button-a.png"));
    assert_eq!(icon_file_name(Key::Unknown), None);
}

#[test]
fn faces_by_button() {
    assert_eq!(button_face(Key::X), ButtonFace::X);
    assert_eq!(button_face(Key::Start), ButtonFace::Plain);
}

#[test]
fn drawn_button_sizes() {
    assert_eq!(vector_size(Key::A, 30, 99), (30, 34));
    assert_eq!(vector_size(Key::Start, 30, 99), (107, 34));
}

#[test]
fn face_button_is_a_disc_with_centred_name() {
    let (shapes, text) = vector_button(Key::A, Point::new(10, 20), 28, 20, 12, 20);
    assert_eq!(shapes, vec![ButtonShape::Circle { center: Point::new(24, 34), radius: 14 }]);
    assert_eq!(text, Some(Point::new(18, 24)));
}

#[test]
fn direction_button_is_a_cross_and_an_arrow() {
    let (shapes, text) = vector_button(Key::Up, Point::new(0, 0), 28, 20, 0, 0);
    assert_eq!(
        shapes,
        vec![
            ButtonShape::RoundedRect { rect: Rect::new(0, 9, 28, 12), radius: 4, indicator: false },
            ButtonShape::RoundedRect { rect: Rect::new(9, 0, 12, 28), radius: 4, indicator: false },
            ButtonShape::RoundedRect { rect: Rect::new(11, 2, 8, 12), radius: 4, indicator: true },
        ]
    );
    assert_eq!(text, None);
}

#[test]
fn named_button_is_a_box_around_its_name() {
    let (shapes, text) = vector_button(Key::Start, Point::new(0, 0), 28, 20, 50, 22);
    assert_eq!(
        shapes,
        vec![ButtonShape::RoundedRect { rect: Rect::new(0, 2, 58, 26), radius: 8, indicator: false }]
    );
    assert_eq!(text, Some(Point::new(4, 4)));
    let (shapes, text) = vector_button(Key::Menu, Point::new(0, 0), 10, 20, 30, 22);
    assert_eq!(
        shapes,
        vec![ButtonShape::RoundedRect { rect: Rect::new(0, -7, 38, 26), radius: 8, indicator: false }]
    );
    assert_eq!(text, Some(Point::new(4, -5)));
}

#[test]
fn shoulder_button_is_a_bar() {
    let (shapes, text) = vector_button(Key::L, Point::new(0, 0), 28, 20, 8, 20);
    assert_eq!(
        shapes,
        vec![ButtonShape::RoundedRect { rect: Rect::new(0, 3, 28, 21), radius: 8, indicator: false }]
    );
    assert_eq!(text, Some(Point::new(10, 4)));
}

#[test]
fn hint_layouts() {
    assert_eq!(
        layout_left(Point::new(10, 100), 28, 20, 28, 12),
        (Point::new(10, 100), Point::new(44, 104))
    );
    assert_eq!(
        layout_right(Point::new(600, 100), 28, 32, 550, 12),
        (Point::new(544, 102), Point::new(600, 100))
    );
}

#[test]
fn hint_rows_sit_above_the_bottom() {
    assert_eq!(
        rows_origin(Rect::new(0, 0, 640, 480), 28, 12, 8),
        (Point::new(12, 440), Point::new(632, 440))
    );
}

#[test]
fn hints_box_spans_both_rows() {
    let left = Rect::new(12, 440, 100, 30);
    let right = Rect::new(500, 440, 132, 32);
    assert_eq!(hints_bounding_box(Some(left), Some(right)), Rect::new(12, 440, 620, 32));
    assert_eq!(hints_bounding_box(None, Some(right)), right);
    assert_eq!(hints_bounding_box(None, None), Rect::new(0, 0, 0, 0));
}
