use pinetime_core::backlight::Backlight;

#[test]
fn set_clamps_values_above_the_maximum() {
    let mut b = Backlight::init(1);
    b.set(9);
    assert_eq!(b.get_brightness(), 7);
}

#[test]
fn brighter_saturates_at_the_maximum() {
    let mut b = Backlight::init(7);
    b.brighter();
    assert_eq!(b.get_brightness(), 7);
}

#[test]
fn init_clamps_too() {
    let b = Backlight::init(200);
    assert_eq!(b.get_brightness(), 7);
}

#[test]
fn brighter_and_darker_step_by_one() {
    let mut b = Backlight::init(3);
    b.brighter();
    assert_eq!(b.get_brightness(), 4);
    b.darker();
    b.darker();
    assert_eq!(b.get_brightness(), 2);
}

#[test]
fn off_reaches_level_zero() {
    let mut b = Backlight::init(5);
    b.off();
    assert_eq!(b.get_brightness(), 0);
}

#[test]
fn level_bits_drive_the_active_low_lines() {
    let mut b = Backlight::init(0);
    assert_eq!((b.low_on, b.mid_on, b.high_on), (false, false, false));
    b.set(1);
    assert_eq!((b.low_on, b.mid_on, b.high_on), (true, false, false));
    b.set(5);
    assert_eq!((b.low_on, b.mid_on, b.high_on), (true, false, true));
    b.set(7);
    assert_eq!((b.low_on, b.mid_on, b.high_on), (true, true, true));
}
