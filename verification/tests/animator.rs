use pinetime_core::animator::{Animator, FERRIS_H, FERRIS_W};

#[test]
fn sprite_walks_right_and_reverses_past_the_limit() {
    let mut a = Animator::new();
    assert_eq!((a.x_offset, a.y_offset, a.step_size), (10, 80, 2));
    // walk right: 10, 12, ... until the offset exceeds 240 - 86 - 10 = 144
    let mut ticks = 0;
    while a.step_size > 0 {
        a.tick();
        ticks += 1;
        assert!(ticks < 1000, "the sprite never bounced");
    }
    // the first offset past the limit is 146; the tick after that reverses
    assert_eq!(a.step_size, -2);
    assert_eq!(a.x_offset, 144);
    assert_eq!(ticks, 69);
}

#[test]
fn one_tick_past_the_limit_reverses_the_step() {
    let mut a = Animator::new();
    a.x_offset = 146;
    let plan = a.tick();
    // the frame still draws at the old position
    assert_eq!(plan.sprite_x, 146);
    assert_eq!(a.step_size, -2);
    assert_eq!(a.x_offset, 144);
}

#[test]
fn sprite_bounces_back_at_the_left_margin() {
    let mut a = Animator::new();
    a.x_offset = 8;
    a.step_size = -2;
    a.tick();
    assert_eq!(a.step_size, 2);
    assert_eq!(a.x_offset, 10);
}

#[test]
fn moving_right_erases_a_strip_on_the_left() {
    let mut a = Animator::new();
    let plan = a.tick();
    assert_eq!(plan.sprite_x, 10);
    assert_eq!(plan.sprite_y, 80);
    assert_eq!(plan.erase.x0, 8);
    assert_eq!(plan.erase.x1, 10);
    assert_eq!(plan.erase.y0, 80);
    assert_eq!(plan.erase.y1, 80 + FERRIS_H);
}

#[test]
fn moving_left_erases_a_strip_on_the_right() {
    let mut a = Animator::new();
    a.x_offset = 100;
    a.step_size = -2;
    let plan = a.tick();
    assert_eq!(plan.erase.x0, 100 + FERRIS_W);
    assert_eq!(plan.erase.x1, 100 + FERRIS_W + 2);
    assert_eq!(plan.erase.y0, 80);
    assert_eq!(plan.erase.y1, 80 + FERRIS_H);
}

#[test]
fn bouncing_keeps_the_sprite_inside_the_band() {
    let mut a = Animator::new();
    for _ in 0..1000 {
        a.tick();
        assert!(a.x_offset >= 8);
        assert!(a.x_offset <= 146);
    }
}
