use common::battery::{
    battery_percentage, format_battery_percentage, smooth_adc_value, Miyoo283Battery,
    MockBattery, SimulatorBattery,
};

/// The calibration curve of the MY283 battery, computed in floating point.
fn curve(value: i32) -> i32 {
    if value >= 578 {
        100
    } else if value >= 528 {
        value - 478
    } else if value >= 512 {
        (value as f64 * 2.125 - 1068.0) as i32
    } else if value >= 480 {
        (value as f64 * 0.51613 - 243.742) as i32
    } else {
        0
    }
}

#[test]
fn battery_percentage_matches_float_curve() {
    for v in 400..700 {
        assert_eq!(battery_percentage(v), curve(v), "value {}", v);
    }
}

#[test]
fn battery_percentage_exact_values() {
    assert_eq!(battery_percentage(0), 0);
    assert_eq!(battery_percentage(480), 4);
    assert_eq!(battery_percentage(512), 20);
    assert_eq!(battery_percentage(527), 51);
    assert_eq!(battery_percentage(528), 50);
    assert_eq!(battery_percentage(577), 99);
    assert_eq!(battery_percentage(578), 100);
    assert_eq!(battery_percentage(i32::MAX), 100);
    assert_eq!(battery_percentage(i32::MIN), 0);
}

#[test]
fn smoothing_steps_towards_reading() {
    assert_eq!(smooth_adc_value(0, Some(550)), 550);
    assert_eq!(smooth_adc_value(550, Some(600)), 551);
    assert_eq!(smooth_adc_value(550, Some(500)), 549);
    assert_eq!(smooth_adc_value(550, Some(550)), 550);
    assert_eq!(smooth_adc_value(550, None), 550);
}

#[test]
fn miyoo283_battery_updates() {
    let mut b = Miyoo283Battery::new();
    assert_eq!(b.percentage(), 100);
    b.update(false, Some(553));
    assert_eq!(b.adc_value(), 553);
    assert_eq!(b.percentage(), 75);
    b.update(false, Some(600));
    assert_eq!(b.adc_value(), 554);
    b.update(true, Some(400));
    assert_eq!(b.percentage(), 100);
    assert_eq!(b.adc_value(), 554);
}

#[test]
fn simulator_and_mock_batteries() {
    let mut s = SimulatorBattery::new();
    let p = s.percentage();
    let c = s.charging();
    s.update();
    assert_ne!(s.charging(), c);
    assert!(s.percentage() <= p);
    let mut m = MockBattery;
    m.update();
    assert_eq!(m.percentage(), 50);
    assert!(!m.charging());
}

#[test]
fn battery_label() {
    assert_eq!(format_battery_percentage(false, 42), "42%");
    assert_eq!(format_battery_percentage(false, 0), "0%");
    assert_eq!(format_battery_percentage(true, 42), "");
}
