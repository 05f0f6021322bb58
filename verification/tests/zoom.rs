use cube_shuffle_wasm::zoom::{wheel_delta, ZoomModel, MAX_ZOOM, MIN_ZOOM, ZOOM_ONE, ZOOM_STEP};

fn after(deltas: &[i64]) -> i64 {
    let mut zoom = ZoomModel::new();
    for delta in deltas {
        zoom.apply_delta(*delta);
    }
    zoom.scale()
}

#[test]
fn the_limits_are_half_and_double_the_natural_size() {
    assert_eq!(ZOOM_ONE, 1000);
    assert_eq!(MIN_ZOOM, 500);
    assert_eq!(MAX_ZOOM, 2000);
    assert_eq!(ZOOM_STEP, 100);
}

#[test]
fn a_new_model_is_at_the_natural_size() {
    let zoom = ZoomModel::new();
    assert_eq!(zoom.scale(), 1000);
    assert_eq!(zoom.percent(), 100);
}

#[test]
fn eleven_steps_up_stop_at_the_maximum() {
    let mut zoom = ZoomModel::new();
    for _ in 0..11 {
        zoom.apply_delta(ZOOM_STEP);
    }
    assert_eq!(zoom.scale(), 2000);
}

#[test]
fn ten_steps_up_reach_the_maximum_exactly() {
    assert_eq!(after(&[100; 10]), 2000);
    assert_eq!(after(&[100; 9]), 1900);
}

#[test]
fn steps_down_stop_at_the_minimum() {
    assert_eq!(after(&[-100; 4]), 600);
    assert_eq!(after(&[-100; 5]), 500);
    assert_eq!(after(&[-100; 6]), 500);
    assert_eq!(after(&[-100; 40]), 500);
}

#[test]
fn apply_delta_returns_the_new_scale() {
    let mut zoom = ZoomModel::new();
    assert_eq!(zoom.apply_delta(300), 1300);
    assert_eq!(zoom.scale(), 1300);
    assert_eq!(zoom.apply_delta(-700), 600);
    assert_eq!(zoom.apply_delta(-700), 500);
    assert_eq!(zoom.apply_delta(0), 500);
    assert_eq!(zoom.apply_delta(1), 501);
    assert_eq!(zoom.apply_delta(1499), 2000);
    assert_eq!(zoom.apply_delta(1), 2000);
}

#[test]
fn the_largest_steps_do_not_overflow() {
    let mut zoom = ZoomModel::new();
    assert_eq!(zoom.apply_delta(i64::MAX), 2000);
    assert_eq!(zoom.apply_delta(i64::MAX), 2000);
    assert_eq!(zoom.apply_delta(i64::MIN), 500);
    assert_eq!(zoom.apply_delta(i64::MIN), 500);
    assert_eq!(zoom.apply_delta(i64::MAX), 2000);
}

#[test]
fn a_run_of_steps_stays_in_range() {
    let deltas = [700, -3000, 250, 250, 4000, -1, -1, 9000, -9000, 123];
    let mut zoom = ZoomModel::new();
    for delta in deltas {
        let scale = zoom.apply_delta(delta);
        assert!(MIN_ZOOM <= scale && scale <= MAX_ZOOM);
        assert_eq!(scale, zoom.scale());
    }
    assert_eq!(zoom.scale(), 623);
}

#[test]
fn a_run_one_way_ends_at_the_clamped_sum() {
    assert_eq!(after(&[100, 200, 300]), 1600);
    assert_eq!(after(&[100, 200, 300, 400, 500]), 2000);
    assert_eq!(after(&[-50, -50, -50]), 850);
    assert_eq!(after(&[-300, -300, -300]), 500);
}

#[test]
fn a_run_that_turns_back_after_a_cut_ends_below_the_clamped_sum() {
    assert_eq!(after(&[2000, -500]), 1500);
    let mut wheel = vec![100; 11];
    wheel.push(-100);
    assert_eq!(after(&wheel), 1900);
}

#[test]
fn percent_rounds_to_the_nearest() {
    let mut zoom = ZoomModel::new();
    zoom.apply_delta(254);
    assert_eq!(zoom.percent(), 125);
    zoom.apply_delta(1);
    assert_eq!(zoom.percent(), 126);
    zoom.apply_delta(-10_000);
    assert_eq!(zoom.percent(), 50);
    zoom.apply_delta(10_000);
    assert_eq!(zoom.percent(), 200);
}

#[test]
fn a_turn_away_zooms_in_and_any_other_zooms_out() {
    assert_eq!(wheel_delta((-120.0f64).to_bits()), 100);
    assert_eq!(wheel_delta((-0.001f64).to_bits()), 100);
    assert_eq!(wheel_delta(120.0f64.to_bits()), -100);
    assert_eq!(wheel_delta(0.0f64.to_bits()), -100);
}

#[test]
fn the_size_of_a_turn_does_not_count() {
    assert_eq!(wheel_delta((-1.0f64).to_bits()), wheel_delta((-4000.0f64).to_bits()));
    assert_eq!(wheel_delta(1.0f64.to_bits()), wheel_delta(4000.0f64.to_bits()));
}

#[test]
fn the_sign_of_a_turn_is_read_as_the_machine_compares() {
    let samples = [
        0.0f64,
        -0.0,
        1.0,
        -1.0,
        f64::MIN_POSITIVE,
        -f64::MIN_POSITIVE,
        f64::from_bits(1),
        f64::from_bits(0x8000_0000_0000_0001),
        f64::MAX,
        f64::MIN,
        f64::INFINITY,
        f64::NEG_INFINITY,
        f64::NAN,
        -f64::NAN,
        f64::from_bits(0xFFF0_0000_0000_0001),
        f64::from_bits(0xFFFF_FFFF_FFFF_FFFF),
        f64::from_bits(0x7FF0_0000_0000_0001),
        f64::EPSILON,
        -f64::EPSILON,
        53.0,
        -53.5,
    ];
    for sample in samples {
        let expected = if sample < 0.0 { 100 } else { -100 };
        assert_eq!(wheel_delta(sample.to_bits()), expected);
    }
}
