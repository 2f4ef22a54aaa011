use common::framebuffer::{clamp_load_rect, clip_rect, copy_rect, read_frame_rect, write_rect_at};
use common::geom::{Rect, Size};

#[test]
fn write_turns_the_screen_half_a_turn() {
    let pixmap = [1, 2, 3, 255, 5, 6, 7, 255];
    let mut frame = [0u8; 8];
    write_rect_at(&pixmap, 2, 1, &mut frame, Rect::new(0, 0, 2, 1), 0, 0, 4);
    assert_eq!(frame, [7, 6, 5, 255, 3, 2, 1, 255]);
    let mut back = [0u8; 8];
    read_frame_rect(&frame, &mut back, 2, 1, Rect::new(0, 0, 2, 1), 0, 0, 4);
    assert_eq!(back, pixmap);
}

#[test]
fn write_skips_a_page_that_does_not_fit() {
    let pixmap = [1, 2, 3, 255, 5, 6, 7, 255];
    let mut frame = [9u8; 8];
    // The page one row down starts at byte 8, past the end.
    write_rect_at(&pixmap, 2, 1, &mut frame, Rect::new(0, 0, 2, 1), 0, 1, 4);
    assert_eq!(frame, [9u8; 8]);
}

#[test]
fn write_and_read_clip_to_the_rect() {
    let pixmap = [1, 2, 3, 255, 5, 6, 7, 255];
    let mut frame = [0u8; 8];
    write_rect_at(&pixmap, 2, 1, &mut frame, Rect::new(1, -3, 10, 10), 0, 0, 4);
    assert_eq!(frame, [7, 6, 5, 255, 0, 0, 0, 0]);
    // Reading premultiplies: half-transparent white comes back as half grey.
    let frame = [255, 255, 255, 128, 0, 0, 0, 0];
    let mut back = [9u8; 8];
    read_frame_rect(&frame, &mut back, 2, 1, Rect::new(1, 0, 1, 1), 0, 0, 4);
    assert_eq!(back, [9, 9, 9, 9, 128, 128, 128, 128]);
}

#[test]
fn clip_and_clamp() {
    assert_eq!(clip_rect(Rect::new(-2, 3, 10, 10), 5, 8), (0, 3, 5, 8));
    assert_eq!(clip_rect(Rect::new(-20, -20, 10, 10), 5, 8), (0, 0, 0, 0));
    assert_eq!(clamp_load_rect(Rect::new(-5, 2, 20, 20), Size::new(10, 10)), Rect::new(0, 2, 10, 8));
    assert_eq!(clamp_load_rect(Rect::new(1, 1, 2, 2), Size::new(10, 10)), Rect::new(1, 1, 2, 2));
}

#[test]
fn copy_restores_the_rect() {
    let saved = [9u8; 16];
    let mut pixmap = [0u8; 16];
    copy_rect(&saved, &mut pixmap, 2, 2, Rect::new(1, 0, 1, 2));
    assert_eq!(pixmap, [0, 0, 0, 0, 9, 9, 9, 9, 0, 0, 0, 0, 9, 9, 9, 9]);
}

#[test]
fn half_turn_reverses_the_pixels() {
    assert_eq!(common::framebuffer::rotated_half_turn(&[1, 2, 3, 4]), vec![4, 3, 2, 1]);
    assert_eq!(common::framebuffer::rotated_half_turn(&[]), Vec::<u32>::new());
}

#[test]
fn page_moves_to_the_front() {
    let mut frame: Vec<u8> = (0..10).collect();
    common::framebuffer::move_page_to_front(&mut frame, 6, 4);
    assert_eq!(frame, vec![6, 7, 8, 9, 4, 5, 6, 7, 8, 9]);
    let mut overlapping: Vec<u8> = (0..10).collect();
    common::framebuffer::move_page_to_front(&mut overlapping, 2, 6);
    assert_eq!(overlapping, vec![2, 3, 4, 5, 6, 7, 6, 7, 8, 9]);
}
