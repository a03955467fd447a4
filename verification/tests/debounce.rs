use pinetime_core::debounce::{Debouncer, Edge};

#[test]
fn six_high_samples_give_one_rising_edge_on_the_sixth() {
    let mut d = Debouncer::new();
    // any run of low samples first
    for _ in 0..4 {
        assert_eq!(d.update(false), None);
    }
    // exactly one edge, on the sixth consecutive high sample
    for _ in 0..5 {
        assert_eq!(d.update(true), None);
    }
    assert_eq!(d.update(true), Some(Edge::Rising));
    // and no further edge while the line stays high
    assert_eq!(d.update(true), None);
}

#[test]
fn six_low_samples_give_one_falling_edge_on_the_sixth() {
    let mut d = Debouncer::new();
    for _ in 0..5 {
        d.update(true);
    }
    assert_eq!(d.update(true), Some(Edge::Rising));
    for _ in 0..5 {
        assert_eq!(d.update(false), None);
    }
    assert_eq!(d.update(false), Some(Edge::Falling));
}

#[test]
fn isolated_glitch_produces_no_edge() {
    let mut d = Debouncer::new();
    for _ in 0..6 {
        assert_eq!(d.update(false), None);
    }
    // a single high sample among lows
    assert_eq!(d.update(true), None);
    for _ in 0..8 {
        assert_eq!(d.update(false), None);
    }
}

#[test]
fn bounce_during_press_delays_the_edge_without_duplicating_it() {
    let mut d = Debouncer::new();
    // contact bounce: alternating samples produce nothing
    for _ in 0..4 {
        assert_eq!(d.update(true), None);
        assert_eq!(d.update(false), None);
    }
    // then a clean press: one edge on the sixth stable sample
    for _ in 0..5 {
        assert_eq!(d.update(true), None);
    }
    assert_eq!(d.update(true), Some(Edge::Rising));
}
