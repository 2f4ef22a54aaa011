use common::battery::AdcConfig;
use common::battery_icon::{fits_battery_layout, BatteryIconVariant, BatteryMetrics, VectorBatteryLayout};
use common::battery_indicator::{fits_indicator, vector_icon_size, BatteryIndicator, IndicatorLayout};
use common::bitmap::Bitmap;
use common::geom::{Point, Rect};
use common::hardware::MiyooDeviceModel;
use common::platform::{backlight_duty, Brightness, MockPlatform, Suspend, Volume};
use common::status_bar::{backdrop, status_items, StatusItem};

fn metrics() -> BatteryMetrics {
    BatteryMetrics { size: 28, body_h: 16, charging_w: 20 }
}

#[test]
fn indicator_layout_at_half_charge() {
    let l = IndicatorLayout::calculate(Point::new(600, 10), metrics(), 40, false, 50, true);
    assert_eq!(l.body, Rect::new(526, 15, 28, 16));
    assert_eq!(l.body_radius, 6);
    assert_eq!(l.stroke, 3);
    assert_eq!(l.fill, Some(Rect::new(531, 20, 9, 6)));
    assert_eq!(l.cap, Rect::new(556, 20, 3, 6));
    assert_eq!(l.inner_radius, 3);
    assert_eq!(l.bolt, None);
    assert!(l.halo);
}

#[test]
fn indicator_layout_while_charging_full() {
    let l = IndicatorLayout::calculate(Point::new(600, 10), metrics(), 40, true, 100, false);
    assert_eq!(l.body.x, 508);
    assert_eq!(l.fill, Some(Rect::new(513, 20, 19, 6)));
    assert_eq!(l.cap.x, 538);
    assert_eq!(l.bolt, Some(Point::new(560, 10)));
    assert!(!l.halo);
}

#[test]
fn indicator_layout_empty_battery_has_no_fill() {
    let l = IndicatorLayout::calculate(Point::new(600, 10), metrics(), 0, false, 5, true);
    assert_eq!(l.fill, None);
}

#[test]
fn indicator_vector_size() {
    assert_eq!(vector_icon_size(metrics(), false), (37, 16));
    assert_eq!(vector_icon_size(metrics(), true), (63, 16));
}

#[test]
fn indicator_label_follows_the_battery() {
    let mut b = BatteryIndicator::new(Point::new(600, 10), BatteryIconVariant::Vector, false, 50, true);
    assert_eq!(b.label().map(|s| s.as_str()), Some("50%"));
    assert!(b.should_draw());
    b.mark_drawn();
    assert!(!b.should_draw());
    b.update(true, 80);
    assert_eq!(b.label().map(|s| s.as_str()), Some(""));
    assert!(b.charging());
    assert_eq!(b.percentage(), 80);
    assert!(b.should_draw());
    assert_eq!(b.label_width(30), 38);
    let hidden = BatteryIndicator::new(Point::new(600, 10), BatteryIconVariant::Vector, false, 50, false);
    assert_eq!(hidden.label(), None);
    assert_eq!(hidden.label_width(30), 0);
}

#[test]
fn indicator_box_covers_icon_and_label() {
    let b = BatteryIndicator::new(Point::new(600, 10), BatteryIconVariant::Vector, false, 50, true);
    assert_eq!(b.icon_size(metrics()), (37, 16));
    assert_eq!(b.bounding_box(37, 16, 38), Rect::new(525, 10, 75, 16));
}

#[test]
fn indicator_images_by_level() {
    let img = |w: u32| Bitmap::from_raw(w, 8, vec![0; (w * 8 * 4) as usize]).unwrap();
    let icons = BatteryIconVariant::Image { charging: img(20), levels: vec![img(10), img(11), img(12)] };
    let b = BatteryIndicator::new(Point::new(600, 10), icons, false, 50, true);
    let (chosen, at) = b.image_to_draw(38).unwrap();
    assert_eq!(chosen.dimensions(), (11, 8));
    assert_eq!(at, Point::new(600 - 11 - 38, 10));
    assert_eq!(b.icon_size(metrics()), (10, 8));
}

#[test]
fn backdrop_is_padded_and_kept_on_screen() {
    assert_eq!(backdrop(Rect::new(500, 5, 100, 20), 4, 8), Some(Rect::new(496, 0, 108, 33)));
    assert_eq!(backdrop(Rect::new(500, 20, 100, 20), 4, 8), Some(Rect::new(496, 12, 108, 36)));
    assert_eq!(backdrop(Rect::new(0, 0, 0, 5), 4, 8), None);
}

#[test]
fn mock_platform_reports_fixed_values() {
    let mut p = MockPlatform::new();
    assert_eq!(p.get_brightness().unwrap(), 50);
    assert!(p.set_brightness(10).is_ok());
    assert!(p.set_volume(3).is_ok());
    assert!(p.suspend().is_ok());
    assert!(p.unsuspend(()).is_ok());
    assert!(p.shutdown().is_ok());
    assert_eq!(MockPlatform::device_model(), "Mock");
    assert_eq!(MockPlatform::firmware(), "00000000");
    assert!(!MockPlatform::has_wifi());
    assert!(!MockPlatform::has_lid());
    assert_eq!(p.battery().percentage(), 50);
}

#[test]
fn backlight_never_goes_dark() {
    assert_eq!(backlight_duty(0), 3);
    assert_eq!(backlight_duty(2), 3);
    assert_eq!(backlight_duty(3), 3);
    assert_eq!(backlight_duty(200), 200);
}

#[test]
fn shutdown_programs_by_model() {
    assert_eq!(MiyooDeviceModel::Miyoo283.shutdown_program(), "reboot");
    assert_eq!(MiyooDeviceModel::Miyoo354.shutdown_program(), "poweroff");
    assert!(!MiyooDeviceModel::Miyoo283.has_volume_control());
    assert!(MiyooDeviceModel::Miyoo354.has_volume_control());
}

#[test]
fn adc_request_starts_empty() {
    assert_eq!(AdcConfig::new().adc_value(), 0);
}

#[test]
fn battery_icon_total_size() {
    let m = BatteryMetrics { size: 30, body_h: 18, charging_w: 21 };
    assert_eq!(VectorBatteryLayout::total_size(m, false), (34, 30));
    assert_eq!(VectorBatteryLayout::total_size(m, true), (55, 30));
}

#[test]
fn fit_checks_match_the_layouts_limits() {
    assert!(fits_indicator(Point::new(600, 10), metrics(), 40, false, 50));
    assert!(!fits_indicator(Point::new(600, 10), metrics(), -1, false, 50));
    assert!(!fits_indicator(Point::new(i32::MIN + 10, 10), metrics(), 40, true, 50));
    let huge = BatteryMetrics { size: 0x2A00_0000, body_h: 16, charging_w: 20 };
    assert!(fits_indicator(Point::new(i32::MAX - 0x2A00_0000, 0), huge, 0, false, 5));
    assert!(!fits_indicator(Point::new(0, 0), BatteryMetrics { size: i32::MAX / 3 + 1, body_h: 1, charging_w: 0 }, 0, false, 5));
    assert!(fits_battery_layout(Point::new(600, 10), metrics(), true));
    assert!(!fits_battery_layout(Point::new(600, 10), BatteryMetrics { size: 10, body_h: 11, charging_w: 0 }, false));
    assert!(!fits_battery_layout(Point::new(600, i32::MAX - 5), metrics(), false));
}

#[test]
fn image_draw_check() {
    let img = |w: u32| Bitmap::from_raw(w, 8, vec![0; (w * 8 * 4) as usize]).unwrap();
    let icons = BatteryIconVariant::Image { charging: img(20), levels: vec![img(10), img(11), img(12)] };
    let b = BatteryIndicator::new(Point::new(600, 10), icons, false, 50, true);
    assert!(b.fits_image_draw(38));
    assert!(!b.fits_image_draw(-1));
    let icons = BatteryIconVariant::Image { charging: img(20), levels: vec![img(10)] };
    let far = BatteryIndicator::new(Point::new(i32::MIN + 5, 10), icons, false, 50, true);
    assert!(!far.fits_image_draw(0));
    let negative = BatteryIndicator::new(Point::new(600, 10), BatteryIconVariant::Vector, false, -3, true);
    assert!(!negative.fits_image_draw(0));
}

#[test]
fn status_bar_holds_battery_then_wifi_then_clock() {
    assert_eq!(status_items(false, false), vec![StatusItem::Battery]);
    assert_eq!(status_items(true, false), vec![StatusItem::Battery, StatusItem::Wifi]);
    assert_eq!(status_items(false, true), vec![StatusItem::Battery, StatusItem::Clock]);
    assert_eq!(status_items(true, true), vec![StatusItem::Battery, StatusItem::Wifi, StatusItem::Clock]);
}
