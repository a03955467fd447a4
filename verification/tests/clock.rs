use pinetime_core::clock::{MonotonicClock, TimeOrder, add_duration, compare, elapsed_since, reached};

#[test]
fn compare_orders_plain_values() {
    assert_eq!(compare(5, 5), TimeOrder::Same);
    assert_eq!(compare(5, 9), TimeOrder::Earlier);
    assert_eq!(compare(9, 5), TimeOrder::Later);
}

#[test]
fn compare_is_wrap_safe_across_overflow() {
    // a sits near the top of the counter range; b is temporally later but
    // smaller as a raw integer because the counter wrapped.
    let a = u32::MAX - 10;
    let b = 5u32;
    assert!(b < a);
    assert_eq!(compare(a, b), TimeOrder::Earlier);
    assert_eq!(compare(b, a), TimeOrder::Later);
}

#[test]
fn elapsed_since_crosses_the_wrap() {
    let before = u32::MAX - 1;
    let after = add_duration(before, 10);
    assert_eq!(after, 8);
    assert_eq!(elapsed_since(after, before), 10);
}

#[test]
fn reached_respects_the_ring() {
    assert!(reached(100, 100));
    assert!(reached(100, 90));
    assert!(!reached(90, 100));
    // a deadline just before the wrap is reached just after it
    assert!(reached(3, u32::MAX - 2));
}

#[test]
fn monotonic_clock_advances_with_wrap() {
    let mut c = MonotonicClock::new(u32::MAX);
    assert_eq!(c.now(), u32::MAX);
    c.advance(1);
    assert_eq!(c.now(), 0);
    c.advance(41);
    assert_eq!(c.now(), 41);
}
