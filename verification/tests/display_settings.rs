use common::display_settings::DisplaySettings;
use common::platform::{DisplayColor, MockPlatform};

fn settings(contrast: u8, r: u8, g: u8, b: u8) -> DisplaySettings {
    DisplaySettings { luminance: 50, hue: 40, saturation: 60, contrast, r, g, b }
}

#[test]
fn contrast_is_raised_to_ten() {
    let mut s = settings(3, 50, 50, 50);
    s.raise_contrast();
    assert_eq!(s, settings(10, 50, 50, 50));
    let mut s = settings(10, 50, 50, 50);
    s.raise_contrast();
    assert_eq!(s, settings(10, 50, 50, 50));
    let mut s = settings(70, 0, 0, 0);
    s.raise_contrast();
    assert_eq!(s, settings(70, 0, 0, 0));
}

#[test]
fn white_balance_is_raised_only_when_every_channel_is_low() {
    let mut s = settings(50, 0, 14, 3);
    s.raise_white_balance();
    assert_eq!(s, settings(50, 15, 15, 15));
    let mut s = settings(50, 0, 15, 3);
    s.raise_white_balance();
    assert_eq!(s, settings(50, 0, 15, 3));
}

#[test]
fn csc_line_lists_contrast_hue_luminance_saturation() {
    assert_eq!(settings(10, 0, 0, 0).csc_line(), "csc 0 3 10 40 50 60 0 0\n");
    let s = DisplaySettings { luminance: 0, hue: 100, saturation: 7, contrast: 255, r: 1, g: 2, b: 3 };
    assert_eq!(s.csc_line(), "csc 0 3 255 100 0 7 0 0\n");
}

#[test]
fn mock_platform_leaves_display_settings_alone() {
    let mut p = MockPlatform::new();
    let mut s = settings(1, 2, 3, 4);
    assert!(p.set_display_settings(&mut s).is_ok());
    assert_eq!(s, settings(1, 2, 3, 4));
}
