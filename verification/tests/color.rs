use common::color::{Color, ColorParseError};

#[test]
fn channels_roundtrip() {
    let c = Color::rgba(1, 2, 3, 4);
    assert_eq!((c.r(), c.g(), c.b(), c.a()), (1, 2, 3, 4));
    let o = Color::new(10, 20, 30);
    assert_eq!(o.a(), 255);
    let w = c.with_r(9).with_g(8).with_b(7).with_a(6);
    assert_eq!((w.r(), w.g(), w.b(), w.a()), (9, 8, 7, 6));
    assert_eq!(c.with_a(200).r(), 1);
}

#[test]
fn hex_digits_of_color() {
    let c = Color::rgba(0x12, 0xab, 0xf0, 0x7e);
    let digits: Vec<String> = (0..8).map(|i| c.char(i)).collect();
    assert_eq!(digits, vec!["1", "2", "A", "B", "F", "0", "7", "E"]);
}

#[test]
fn dark_and_invert() {
    assert!(Color::new(0, 0, 0).is_dark());
    assert!(Color::new(127, 127, 127).is_dark());
    assert!(!Color::new(128, 0, 0).is_dark());
    let i = Color::rgba(10, 200, 255, 3).invert();
    assert_eq!((i.r(), i.g(), i.b(), i.a()), (245, 55, 0, 255));
    assert_eq!(i.invert(), Color::new(10, 200, 255));
}

#[test]
fn blend_mixes_by_alpha() {
    let black = Color::new(0, 0, 0);
    let white = Color::new(255, 255, 255);
    let half = black.blend(white, 128);
    assert_eq!((half.r(), half.g(), half.b(), half.a()), (128, 128, 128, 255));
    assert_eq!(black.blend(white, 0), black);
    assert_eq!(black.blend(white, 255), white);
    let c = Color::rgba(100, 50, 0, 10).blend(Color::new(0, 100, 200), 51);
    assert_eq!((c.r(), c.g(), c.b(), c.a()), (80, 60, 40, 255));
}

#[test]
fn overlay_channels() {
    let c = Color::new(100, 200, 0).overlay(Color::new(200, 100, 255));
    assert_eq!((c.r(), c.g(), c.b(), c.a()), (78, 222, 0, 255));
}

#[test]
fn hex_strings() {
    assert_eq!(Color::new(0x12, 0xab, 0xff).hex_string(), "#12abff");
    assert_eq!(Color::rgba(0x12, 0xab, 0xff, 0x80).hex_string(), "#12abff80");
    assert_eq!(Color::rgba(0x12, 0xab, 0xff, 0x80).to_string(), "#12abff");
    assert_eq!(Color::new(0x12, 0xab, 0xff).upper_hex(), "12ABFF");
}

#[test]
fn parse_hex_forms() {
    assert_eq!(Color::parse_hex("#12abff"), Ok(Color::new(0x12, 0xab, 0xff)));
    assert_eq!(Color::parse_hex("12ABFF80"), Ok(Color::rgba(0x12, 0xab, 0xff, 0x80)));
    assert_eq!(Color::parse_hex("##000000"), Ok(Color::new(0, 0, 0)));
    assert_eq!(Color::parse_hex("#zz0000"), Err(ColorParseError::InvalidDigit));
    assert_eq!(Color::parse_hex("#0000001z"), Err(ColorParseError::InvalidDigit));
}

#[test]
fn hex_string_parses_back() {
    for c in [Color::new(1, 2, 3), Color::rgba(255, 0, 128, 7), Color::rgba(0, 0, 0, 0)] {
        assert_eq!(Color::parse_hex(&c.hex_string()), Ok(c));
    }
}

#[test]
fn premultiply_and_back() {
    let c = Color::rgba(200, 100, 50, 128);
    assert_eq!(c.to_premultiplied(), (100, 50, 25, 128));
    let back = Color::from_premultiplied((100, 50, 25, 128));
    assert_eq!((back.r(), back.g(), back.b(), back.a()), (199, 99, 49, 128));
    assert_eq!(Color::rgba(9, 9, 9, 0).to_premultiplied(), (0, 0, 0, 0));
    assert_eq!(Color::from_premultiplied((1, 2, 3, 255)), Color::new(1, 2, 3));
}
