use common::bitmap::Bitmap;
use common::geom::{Alignment, Point, Rect};
use common::image::{align_x, contain_size, fits_prepare, prepare_image, target_size, Image, ImageMode};

fn filled(w: u32, h: u32, v: u8) -> Bitmap {
    Bitmap::from_raw(w, h, vec![v; (w * h * 4) as usize]).unwrap()
}

#[test]
fn contain_keeps_aspect_ratio() {
    assert_eq!(contain_size(100, 50, 200, 200), (50, 50));
    assert_eq!(contain_size(100, 100, 50, 25), (100, 50));
}

#[test]
fn target_sizes_by_mode() {
    let rect = Rect::new(0, 0, 10, 10);
    assert_eq!(target_size(ImageMode::Raw, rect, (5, 5)), None);
    assert_eq!(target_size(ImageMode::Cover, rect, (5, 5)), Some((10, 10)));
    assert_eq!(target_size(ImageMode::Cover, rect, (10, 10)), None);
    assert_eq!(target_size(ImageMode::Contain, rect, (20, 10)), Some((10, 5)));
}

#[test]
fn alignment_offsets() {
    assert_eq!(align_x(Alignment::Left, 10, 4), 0);
    assert_eq!(align_x(Alignment::Center, 10, 4), 3);
    assert_eq!(align_x(Alignment::Right, 10, 4), 6);
    assert_eq!(align_x(Alignment::Center, 4, 10), 0);
}

#[test]
fn raw_image_is_placed_on_a_transparent_background() {
    let out = prepare_image(filled(4, 2, 255), Rect::new(0, 0, 8, 2), ImageMode::Raw, 0, Alignment::Right)
        .unwrap();
    assert_eq!(out.dimensions(), (8, 2));
    assert_eq!(out.get_pixel(0, 0).3, 0);
    assert_eq!(out.get_pixel(5, 1), (255, 255, 255, 255));
}

#[test]
fn cover_scales_to_the_rectangle() {
    let out = prepare_image(filled(4, 4, 200), Rect::new(0, 0, 2, 2), ImageMode::Cover, 0, Alignment::Left)
        .unwrap();
    assert_eq!(out.dimensions(), (2, 2));
}

#[test]
fn rounded_image_loses_its_corners() {
    let out = prepare_image(filled(6, 6, 255), Rect::new(0, 0, 6, 6), ImageMode::Raw, 2, Alignment::Left)
        .unwrap();
    assert_eq!(out.get_pixel(0, 0).3, 51);
    assert_eq!(out.get_pixel(5, 5).3, 51);
    assert_eq!(out.get_pixel(3, 3).3, 255);
}

#[test]
fn image_loads_once_and_redraws_on_a_new_path() {
    let mut img = Image::new(Rect::new(0, 0, 4, 4), "a.png".to_string(), ImageMode::Cover);
    assert_eq!(img.pending_path().map(|s| s.as_str()), Some("a.png"));
    img.load(Some(filled(4, 4, 255)));
    assert_eq!(img.pending_path(), None);
    assert_eq!(img.image().unwrap().dimensions(), (4, 4));
    assert!(img.finish_draw());
    assert!(!img.should_draw());
    img.set_path(Some("a.png".to_string()));
    assert!(!img.should_draw());
    assert!(img.image().is_some());
    img.set_path(Some("b.png".to_string()));
    assert!(img.should_draw());
    assert!(img.image().is_none());
    img.load(None);
    img.finish_draw();
    assert!(img.should_draw());
}

#[test]
fn image_setters_chain() {
    let mut img = Image::empty(Rect::new(1, 2, 3, 4), ImageMode::Raw);
    img.set_border_radius(5).set_alignment(Alignment::Center);
    assert!(img.should_draw());
    assert_eq!(img.pending_path(), None);
    img.finish_draw();
    assert!(!img.should_draw());
    img.set_position(Point::new(7, 8));
    assert_eq!(img.bounding_box(), Rect::new(7, 8, 3, 4));
    assert!(img.should_draw());
}

#[test]
fn fits_prepare_refuses_what_would_overflow() {
    let rect = Rect::new(0, 0, 10, 10);
    assert!(fits_prepare(ImageMode::Contain, rect, (20, 10), 3));
    assert!(!fits_prepare(ImageMode::Contain, rect, (0, 10), 3));
    assert!(fits_prepare(ImageMode::Raw, rect, (0, 10), 3));
    assert!(!fits_prepare(ImageMode::Contain, Rect::new(0, 0, u32::MAX, 10), (20, 10), 0));
    assert!(fits_prepare(ImageMode::Raw, Rect::new(0, 0, 100_000, 10), (40_000, 40_000), 20_000));
    assert!(!fits_prepare(ImageMode::Raw, Rect::new(0, 0, 10, 10), (100_000, 100_000), 40_000));
}

#[test]
fn load_decoded_keeps_only_images_that_fit() {
    let mut img = Image::new(Rect::new(0, 0, 4, 4), "a.png".to_string(), ImageMode::Contain);
    assert!(!img.load_decoded(Some(filled(0, 4, 9))));
    assert!(img.image().is_none());
    let mut img = Image::new(Rect::new(0, 0, 4, 4), "a.png".to_string(), ImageMode::Contain);
    assert!(img.load_decoded(Some(filled(8, 4, 9))));
    assert_eq!(img.image().unwrap().dimensions(), (4, 4));
    let mut img = Image::new(Rect::new(0, 0, 4, 4), "a.png".to_string(), ImageMode::Contain);
    assert!(!img.load_decoded(None));
    assert!(img.image().is_none());
}
