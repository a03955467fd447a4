use pinetime_core::textfmt::{decimal_digits, format_battery_line, format_percent_line};

#[test]
fn digits_of_zero() {
    assert_eq!(decimal_digits(0), b"0".to_vec());
}

#[test]
fn digits_of_a_plain_number() {
    assert_eq!(decimal_digits(1234), b"1234".to_vec());
    assert_eq!(decimal_digits(10), b"10".to_vec());
    assert_eq!(decimal_digits(9), b"9".to_vec());
}

#[test]
fn digits_of_the_largest_counter_value() {
    assert_eq!(decimal_digits(u64::MAX), b"18446744073709551615".to_vec());
}

#[test]
fn battery_line_while_charging() {
    assert_eq!(format_battery_line(39, true), b"3.9V/C".to_vec());
}

#[test]
fn battery_line_while_discharging() {
    assert_eq!(format_battery_line(10, false), b"1.0V/D".to_vec());
}

#[test]
fn battery_line_above_ten_volts_keeps_both_digits() {
    assert_eq!(format_battery_line(131, false), b"13.1V/D".to_vec());
}

#[test]
fn battery_line_at_zero() {
    assert_eq!(format_battery_line(0, false), b"0.0V/D".to_vec());
}

#[test]
fn percent_line() {
    assert_eq!(format_percent_line(37), b"37%".to_vec());
    assert_eq!(format_percent_line(100), b"100%".to_vec());
    assert_eq!(format_percent_line(0), b"0%".to_vec());
}
