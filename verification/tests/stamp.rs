use common::geom::Rect;
use common::stamp::{stamp_area, Stamp};

#[test]
fn stamp_area_is_clipped_and_radius_cut() {
    assert_eq!(stamp_area(Rect::new(-2, 1, 6, 4), 5, 5, 10), Some((0, 1, 4, 5, 2)));
    assert_eq!(stamp_area(Rect::new(6, 1, 6, 4), 5, 5, 10), None);
}

#[test]
fn stamp_rows_are_rotated_bgra_and_repeat_over_pages() {
    let pixmap: Vec<u8> = (0..24).collect();
    let stamp = Stamp::build(&pixmap, 3, 2, 4, 0, 0, 3, 2, &[0, 1], 4).unwrap();
    let mut frame = vec![0u8; 48];
    stamp.blit(&mut frame);
    let row0 = [10, 9, 8, 11, 6, 5, 4, 7, 2, 1, 0, 3];
    let row1 = [18, 17, 16, 19];
    for base in [0, 24] {
        assert_eq!(&frame[base + 12..base + 24], &row0);
        assert_eq!(&frame[base + 4..base + 8], &row1);
        assert_eq!(&frame[base..base + 4], &[0, 0, 0, 0]);
        assert_eq!(&frame[base + 8..base + 12], &[0, 0, 0, 0]);
    }
}

#[test]
fn stamp_skips_rows_that_do_not_fit() {
    let pixmap: Vec<u8> = (0..24).collect();
    let stamp = Stamp::build(&pixmap, 3, 2, 4, 0, 0, 3, 2, &[0, 1], 4).unwrap();
    let mut frame = vec![0u8; 20];
    stamp.blit(&mut frame);
    assert_eq!(&frame[4..8], &[18, 17, 16, 19]);
    assert_eq!(&frame[12..20], &[0; 8]);
}

#[test]
fn fully_rounded_stamp_is_nothing() {
    let pixmap: Vec<u8> = (0..24).collect();
    assert!(Stamp::build(&pixmap, 3, 2, 4, 0, 0, 3, 2, &[3, 2], 4).is_none());
}

#[test]
fn stamping_twice_is_stamping_once() {
    let pixmap: Vec<u8> = (0..24).collect();
    let stamp = Stamp::build(&pixmap, 3, 2, 4, 0, 0, 3, 2, &[0, 1], 4).unwrap();
    let mut frame: Vec<u8> = (100..148).collect();
    stamp.blit(&mut frame);
    let once = frame.clone();
    stamp.blit(&mut frame);
    assert_eq!(frame, once);
    assert_eq!(frame[0], 100);
}
