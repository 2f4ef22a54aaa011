use common::bitmap::{round, Bitmap, ScaleFilter};
use common::compose::{draw_image, fits_draw};
use common::geom::Point;

fn white(w: u32, h: u32) -> Bitmap {
    Bitmap::from_raw(w, h, vec![255; (w * h * 4) as usize]).unwrap()
}

fn alpha(raw: &[u8], w: u32, x: u32, y: u32) -> u8 {
    raw[(4 * (y * w + x) + 3) as usize]
}

#[test]
fn from_raw_checks_length() {
    assert!(Bitmap::from_raw(2, 2, vec![0; 15]).is_none());
    let b = Bitmap::from_raw(2, 2, vec![0; 16]).unwrap();
    assert_eq!(b.dimensions(), (2, 2));
}

#[test]
fn pixels_read_and_write() {
    let raw: Vec<u8> = (0..16).collect();
    let mut b = Bitmap::from_raw(2, 2, raw).unwrap();
    assert_eq!(b.get_pixel(1, 0), (4, 5, 6, 7));
    b.put_pixel(0, 1, (9, 9, 9, 9));
    assert_eq!(b.get_pixel(0, 1), (9, 9, 9, 9));
    let raw = b.into_raw();
    assert_eq!(&raw[8..12], &[9, 9, 9, 9]);
    assert_eq!(&raw[12..16], &[12, 13, 14, 15]);
}

#[test]
fn round_radius_one_fades_the_corners() {
    let mut b = white(5, 5);
    round(&mut b, 1);
    let raw = b.into_raw();
    for (x, y) in [(0, 0), (4, 0), (0, 4), (4, 4)] {
        assert_eq!(alpha(&raw, 5, x, y), 170, "({}, {})", x, y);
    }
    for (x, y) in [(1, 0), (0, 1), (2, 2), (3, 4), (4, 3)] {
        assert_eq!(alpha(&raw, 5, x, y), 255, "({}, {})", x, y);
    }
    // Colour channels are kept.
    assert_eq!(&raw[0..3], &[255, 255, 255]);
}

#[test]
fn round_radius_two() {
    let mut b = white(5, 5);
    round(&mut b, 2);
    let raw = b.into_raw();
    for (x, y) in [(0, 0), (4, 0), (0, 4), (4, 4)] {
        assert_eq!(alpha(&raw, 5, x, y), 51);
    }
    for (x, y) in [(0, 1), (1, 0), (4, 1), (3, 0), (0, 3), (1, 4), (4, 3), (3, 4)] {
        assert_eq!(alpha(&raw, 5, x, y), 204);
    }
    for (x, y) in [(0, 2), (2, 0), (1, 1), (2, 2), (3, 3)] {
        assert_eq!(alpha(&raw, 5, x, y), 255);
    }
}

#[test]
fn round_clears_far_corner_pixels() {
    let mut b = white(8, 8);
    round(&mut b, 3);
    let raw = b.into_raw();
    for (x, y) in [(0, 0), (7, 0), (0, 7), (7, 7)] {
        assert_eq!(&raw[(4 * (y * 8 + x)) as usize..(4 * (y * 8 + x) + 4) as usize], &[0, 0, 0, 0]);
    }
    assert_eq!(alpha(&raw, 8, 3, 3), 255);
}

#[test]
fn round_radius_zero_keeps_the_image() {
    let mut b = white(3, 2);
    round(&mut b, 0);
    assert_eq!(b.into_raw(), vec![255; 24]);
}

#[test]
fn draw_image_blends_and_clips() {
    let mut pixels = vec![(0u8, 0u8, 0u8, 255u8); 6];
    let raw = vec![255, 0, 0, 255, 0, 0, 255, 128];
    let image = Bitmap::from_raw(2, 1, raw).unwrap();
    draw_image(&mut pixels, 3, 2, &image, Point::new(1, 1));
    assert_eq!(pixels[4], (255, 0, 0, 255));
    assert_eq!(pixels[5], (0, 0, 128, 255));
    assert_eq!(&pixels[0..4], &[(0, 0, 0, 255); 4]);
    // Hanging off the left edge: only the second image pixel lands.
    let mut pixels = vec![(0u8, 0u8, 0u8, 0u8); 6];
    draw_image(&mut pixels, 3, 2, &image, Point::new(-1, 0));
    assert_eq!(pixels[0], (0, 0, 128, 128));
    assert_eq!(&pixels[1..6], &[(0, 0, 0, 0); 5]);
}

#[test]
fn draw_image_skips_transparent_pixels() {
    let mut pixels = vec![(10u8, 20u8, 30u8, 40u8); 4];
    let image = Bitmap::from_raw(2, 2, vec![0; 16]).unwrap();
    draw_image(&mut pixels, 2, 2, &image, Point::new(0, 0));
    assert_eq!(pixels, vec![(10, 20, 30, 40); 4]);
}

#[test]
fn round_radius_as_wide_as_the_image() {
    // The one pixel is every corner at once and is faded four times.
    let mut b = white(1, 1);
    round(&mut b, 1);
    assert_eq!(b.into_raw(), vec![255, 255, 255, 50]);
}

#[test]
fn draw_image_at_the_far_edge_of_i32() {
    assert!(fits_draw(3, 2, (1, 1), Point::new(i32::MAX, 0)));
    assert!(!fits_draw(3, 2, (2, 1), Point::new(i32::MAX, 0)));
    assert!(fits_draw(65536, 32768, (1, 1), Point::new(0, 0)));
    assert!(!fits_draw(65536, 32769, (1, 1), Point::new(0, 0)));
    let mut pixels = vec![(0u8, 0u8, 0u8, 255u8); 6];
    draw_image(&mut pixels, 3, 2, &white(1, 1), Point::new(i32::MAX, i32::MAX));
    assert_eq!(pixels, vec![(0, 0, 0, 255); 6]);
}

#[test]
fn scaling_gives_the_same_pixels_every_time() {
    let raw: Vec<u8> = (0..64).map(|i| (i * 4) as u8).collect();
    let image = Bitmap::from_raw(4, 4, raw).unwrap();
    let a = image.resized(2, 3, ScaleFilter::Bilinear).unwrap();
    let b = image.resized(2, 3, ScaleFilter::Bilinear).unwrap();
    assert_eq!(a.dimensions(), (2, 3));
    assert_eq!(a.into_raw(), b.into_raw());
    let n = image.resized(8, 8, ScaleFilter::Nearest).unwrap();
    assert_eq!(n.get_pixel(0, 0), image.get_pixel(0, 0));
    assert_eq!(n.get_pixel(7, 7), image.get_pixel(3, 3));
}
