use chess_client::animation::{
    AnimatePosition, AnimateValue, Animation, AnimationTimingFunction, UNIT,
};

fn eased(duration: u64) -> AnimateValue {
    AnimateValue::new().duration(duration).timing_function(AnimationTimingFunction::Ease)
}

#[test]
fn ease_meets_its_endpoints() {
    assert_eq!(AnimationTimingFunction::Ease.value(0), 0);
    assert_eq!(AnimationTimingFunction::Ease.value(UNIT), UNIT);
    assert_eq!(AnimationTimingFunction::Linear.value(0), 0);
    assert_eq!(AnimationTimingFunction::Linear.value(UNIT), UNIT);
}

#[test]
fn ease_follows_the_smooth_step_polynomial() {
    // t * t * (3 - 2 * t) at a quarter, a half and three quarters.
    assert_eq!(AnimationTimingFunction::Ease.value(250_000), 156_250);
    assert_eq!(AnimationTimingFunction::Ease.value(500_000), 500_000);
    assert_eq!(AnimationTimingFunction::Ease.value(750_000), 843_750);
    // One millionth: 1 * 1 * 2_999_998 / 10^12 rounds down to nothing.
    assert_eq!(AnimationTimingFunction::Ease.value(1), 0);
    assert_eq!(AnimationTimingFunction::Ease.value(100_000), 28_000);
}

#[test]
fn ease_never_falls() {
    let mut last = 0;
    let mut t = 0;
    while t <= UNIT {
        let v = AnimationTimingFunction::Ease.value(t);
        assert!(v >= last, "ease fell at {}", t);
        assert!(v <= UNIT);
        last = v;
        t += 997;
    }
    assert_eq!(AnimationTimingFunction::Ease.value(UNIT), UNIT);
}

#[test]
fn linear_is_the_identity() {
    let mut t = 0;
    while t <= UNIT {
        assert_eq!(AnimationTimingFunction::Linear.value(t), t);
        t += 1_234;
    }
    assert_eq!(AnimationTimingFunction::Linear.value(UNIT), UNIT);
}

#[test]
fn fractions_beyond_one_whole_count_as_one_whole() {
    assert_eq!(AnimationTimingFunction::Linear.value(UNIT + 1), UNIT);
    assert_eq!(AnimationTimingFunction::Ease.value(2 * UNIT), UNIT);
    assert_eq!(AnimationTimingFunction::Ease.value(u64::MAX), UNIT);
}

#[test]
fn fresh_value_starts_at_zero() {
    let a = AnimateValue::new().duration(200_000);
    assert_eq!(a.percent(), 0);
    assert_eq!(a.value(), 0);
    assert!(!a.is_done());
}

#[test]
fn enough_time_finishes_at_the_end_value() {
    let mut a = eased(200_000).start(-3_000_000).end(12_500_000);
    // Twenty-five ticks of a 120 Hz loop: 208 325 microseconds.
    for _ in 0..25 {
        a.tick_dt(8_333);
    }
    assert!(a.is_done());
    assert_eq!(a.percent(), UNIT);
    assert_eq!(a.value(), 12_500_000);

    let mut b = eased(200_000).start(7_000_000).end(1);
    b.tick_dt(u64::MAX);
    assert!(b.is_done());
    assert_eq!(b.value(), 1);
}

#[test]
fn one_tick_short_is_not_done() {
    let mut a = eased(200_000);
    a.tick_dt(199_999);
    assert!(!a.is_done());
    assert_eq!(a.percent(), 999_995);
    a.tick_dt(1);
    assert!(a.is_done());
    assert_eq!(a.percent(), UNIT);
}

#[test]
fn chunking_does_not_matter() {
    let cuts: Vec<Vec<u64>> = vec![
        vec![200_000],
        vec![100_000, 100_000],
        vec![1, 199_999],
        vec![66_666, 66_667, 66_667],
        vec![0, 50_000, 0, 150_000, 0],
    ];
    let mut whole = eased(200_000);
    whole.tick_dt(200_000);
    for cut in cuts.iter() {
        let mut a = eased(200_000);
        for dt in cut.iter() {
            a.tick_dt(*dt);
        }
        assert_eq!(a.percent(), UNIT);
        assert!(a.is_done());
        assert_eq!(a, whole);
    }
}

#[test]
fn chunking_does_not_matter_midway() {
    let mut once = eased(300_000);
    once.tick_dt(100_000);
    let mut thrice = eased(300_000);
    thrice.tick_dt(33_333);
    thrice.tick_dt(33_333);
    thrice.tick_dt(33_334);
    assert_eq!(once, thrice);
    assert_eq!(once.percent(), 333_333);
}

#[test]
fn tick_is_idempotent_at_the_end() {
    let mut a = eased(100_000).end(5_000_000);
    a.tick_dt(100_000);
    let done = a;
    a.tick_dt(1);
    assert_eq!(a, done);
    a.tick_dt(u64::MAX);
    assert_eq!(a, done);
    assert_eq!(a.value(), 5_000_000);
}

#[test]
fn tick_returns_the_advanced_animation() {
    let mut a = eased(100_000);
    let r = a.tick_dt(40_000);
    assert_eq!(r, a);
    assert_eq!(r.percent(), 400_000);
}

#[test]
fn reset_and_finish_move_to_the_ends() {
    let mut a = eased(100_000).start(1_000_000).end(3_000_000);
    a.tick_dt(30_000);
    let f = a.finish();
    assert_eq!(f, a);
    assert!(a.is_done());
    assert_eq!(a.percent(), UNIT);
    assert_eq!(a.value(), 3_000_000);
    let r = a.reset();
    assert_eq!(r, a);
    assert!(!a.is_done());
    assert_eq!(a.percent(), 0);
    assert_eq!(a.value(), 1_000_000);
}

#[test]
fn done_means_full_percent() {
    let mut a = AnimateValue::new().duration(7);
    for step in 0..=7u64 {
        assert_eq!(a.is_done(), a.percent() >= UNIT);
        assert_eq!(a.percent(), step * UNIT / 7);
        a.tick_dt(1);
    }
    assert!(a.is_done());
}

#[test]
fn zero_duration_finishes_on_the_first_advance() {
    let mut a = AnimateValue::new().duration(0).end(9_000_000);
    assert!(!a.is_done());
    assert_eq!(a.value(), 0);
    a.tick_dt(0);
    assert!(!a.is_done());
    a.tick_dt(1);
    assert!(a.is_done());
    assert_eq!(a.value(), 9_000_000);

    let mut b = AnimateValue::new();
    assert!(!b.is_done());
    b.tick_dt(16_666);
    assert!(b.is_done());
    assert_eq!(b.value(), UNIT as i64);
}

#[test]
fn a_new_duration_keeps_the_proportion() {
    let mut a = AnimateValue::new().duration(200_000);
    a.tick_dt(50_000);
    let b = a.duration(400_000);
    assert_eq!(b.percent(), 250_000);
    let mut c = b;
    c.tick_dt(300_000);
    assert!(c.is_done());

    let mut done = AnimateValue::new().duration(100_000);
    done.finish();
    assert!(done.duration(1_000_000).is_done());
    assert!(done.duration(0).is_done());
    assert!(!AnimateValue::new().duration(5).duration(50).is_done());
    assert_eq!(AnimateValue::new().duration(5).duration(50).percent(), 0);
}

#[test]
fn value_interpolates_by_the_eased_progress() {
    let mut up = AnimateValue::new().duration(200_000).start(2_000_000).end(5_000_000);
    up.tick_dt(100_000);
    assert_eq!(up.progress(), 500_000);
    assert_eq!(up.value(), 3_500_000);

    let mut down = eased(200_000).start(5_000_000).end(2_000_000);
    down.tick_dt(50_000);
    assert_eq!(down.percent(), 250_000);
    assert_eq!(down.progress(), 156_250);
    // 5 - 3 * 0.15625
    assert_eq!(down.value(), 4_531_250);
}

#[test]
fn value_rounds_the_distance_down() {
    let mut up = AnimateValue::new().duration(2).start(0).end(1);
    up.tick_dt(1);
    assert_eq!(up.value(), 0);
    let mut down = AnimateValue::new().duration(2).start(1).end(0);
    down.tick_dt(1);
    assert_eq!(down.value(), 1);
    let mut wide = AnimateValue::new().duration(2).start(i64::MIN).end(i64::MAX);
    wide.tick_dt(1);
    assert_eq!(wide.value(), -1);
    wide.tick_dt(1);
    assert_eq!(wide.value(), i64::MAX);
}

#[test]
fn default_value_runs_from_zero_to_one_whole() {
    let mut a = AnimateValue::new().duration(100_000);
    a.tick_dt(25_000);
    assert_eq!(a.value(), 250_000);
    a.finish();
    assert_eq!(a.value(), UNIT as i64);
}

#[test]
fn position_moves_both_axes_by_the_same_progress() {
    let mut p = AnimatePosition::new()
        .duration(200_000)
        .timing_function(AnimationTimingFunction::Ease)
        .start((4_000_000, 6_000_000))
        .end((0, 4_000_000));
    assert_eq!(p.start, (4_000_000, 6_000_000));
    assert_eq!(p.end, (0, 4_000_000));
    assert_eq!(p.pos(), (4_000_000, 6_000_000));
    p.tick_dt(50_000);
    // Eased progress 0.15625 on both axes.
    assert_eq!(p.pos(), (3_375_000, 5_687_500));
    p.tick_dt(50_000);
    assert_eq!(p.pos(), (2_000_000, 5_000_000));
    assert!(!p.is_done());
    p.tick_dt(100_000);
    assert!(p.is_done());
    assert_eq!(p.pos(), (0, 4_000_000));
}

#[test]
fn position_reset_finish_and_rest() {
    let mut p = AnimatePosition::new().duration(10).start((1, 2)).end((3, 4));
    let f = p.finish();
    assert_eq!(f, p);
    assert!(p.is_done());
    assert_eq!(p.pos(), (3, 4));
    let r = p.reset();
    assert_eq!(r, p);
    assert!(!p.is_done());
    assert_eq!(p.pos(), (1, 2));
    let q = AnimatePosition::new();
    assert_eq!(q.pos(), (0, 0));
    assert_eq!(q.start, (0, 0));
    assert_eq!(q.end, (0, 0));
}
