use pinetime_core::battery::BatteryStatus;

#[test]
fn adc_code_2483_is_one_volt() {
    // (2483 * 2000) / 4965 / 100 == 10, i.e. 1.0 V in 0.1 V units
    assert_eq!(BatteryStatus::convert_adc_measurement(2483), Some(10));
}

#[test]
fn negative_adc_code_is_a_read_fault() {
    assert_eq!(BatteryStatus::convert_adc_measurement(-1), None);
    assert_eq!(BatteryStatus::convert_adc_measurement(i16::MIN), None);
}

#[test]
fn more_conversion_points() {
    assert_eq!(BatteryStatus::convert_adc_measurement(0), Some(0));
    // full battery around 4.0 V: code 9930 -> (9930*2000)/4965 = 4000 -> 40
    assert_eq!(BatteryStatus::convert_adc_measurement(9930), Some(40));
    // the largest code stays in range
    assert_eq!(BatteryStatus::convert_adc_measurement(i16::MAX), Some(131));
}

#[test]
fn faulted_code_degrades_to_zero_volts() {
    let mut b = BatteryStatus::init(false, 2483);
    assert_eq!(b.voltage(), 10);
    let changed = b.update(false, -7);
    assert!(changed);
    assert_eq!(b.voltage(), 0);
}

#[test]
fn update_reports_change_only_on_change() {
    let mut b = BatteryStatus::init(false, 2483);
    assert!(!b.update(false, 2483));
    // the same voltage after rounding is no change either
    assert!(!b.update(false, 2484));
    assert!(b.update(true, 2483));
    assert!(b.is_charging());
    assert!(b.update(true, 9930));
    assert_eq!(b.voltage(), 40);
}

#[test]
fn percent_is_clamped_to_one_hundred() {
    let b = BatteryStatus::new();
    assert_eq!(b.percent(), 37);
    assert!(!b.is_charging());
    assert_eq!(b.voltage(), 0);
}
