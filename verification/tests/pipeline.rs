//! The filtering pipeline: calibration, dead zone, sensitivity, smoothing,
//! and the derived normalized-tilt and gravity vectors.

use tilt_core::tilt::TiltInput;

#[test]
fn default_state_matches_the_documented_initial_values() {
    let tilt = TiltInput::default();
    assert_eq!(tilt.beta, 0);
    assert_eq!(tilt.gamma, 0);
    assert_eq!(tilt.alpha, 0);
    assert_eq!(tilt.filtered_beta, 0);
    assert_eq!(tilt.filtered_gamma, 0);
    assert_eq!(tilt.sensitivity, 1000);
    assert_eq!(tilt.dead_zone, 2000);
    assert!(!tilt.enabled);
}

#[test]
fn one_sample_runs_the_whole_pipeline_exactly() {
    // zero_beta = 0, dead zone 2 degrees, sensitivity 1.0, smoothing 0.3:
    // beta 5 degrees -> calibrated 5 -> dead-zoned 3 -> filtered 0.9 degrees.
    let mut tilt = TiltInput::default();
    tilt.update_orientation(0, 5000, 0, 1);
    assert_eq!(tilt.beta, 5000);
    assert_eq!(tilt.filtered_beta, 900);
    assert_eq!(tilt.filtered_gamma, 0);
    assert_eq!(tilt.last_update_time, 1);
}

#[test]
fn dead_zone_is_continuous_at_the_boundary() {
    let tilt = TiltInput::default();
    assert_eq!(tilt.dead_zone, 2000);
    assert_eq!(tilt.apply_dead_zone(1999), 0);
    assert_eq!(tilt.apply_dead_zone(2000), 0);
    assert_eq!(tilt.apply_dead_zone(2001), 1);
    assert_eq!(tilt.apply_dead_zone(50_000), 48_000);
    assert_eq!(tilt.apply_dead_zone(-1999), 0);
    assert_eq!(tilt.apply_dead_zone(-2001), -1);
    assert_eq!(tilt.apply_dead_zone(-50_000), -48_000);
}

#[test]
fn ema_filter_blends_three_tenths_of_the_new_value() {
    let tilt = TiltInput::default();
    assert_eq!(tilt.ema_filter(0, 3000), 900);
    assert_eq!(tilt.ema_filter(1000, 1000), 1000);
    assert_eq!(tilt.ema_filter(-1000, -1000), -1000);
}

#[test]
fn constant_input_converges_to_the_scaled_sample_and_stays() {
    let mut tilt = TiltInput::default();
    tilt.set_dead_zone(0);
    for _ in 0..300 {
        tilt.update_orientation(0, 10_000, 0, 1);
    }
    let settled = tilt.filtered_beta;
    assert!((settled - 10_000).abs() <= 3, "settled at {}", settled);
    tilt.update_orientation(0, 10_000, 0, 2);
    assert_eq!(tilt.filtered_beta, settled);
}

#[test]
fn setters_clamp_every_extreme_input() {
    let mut tilt = TiltInput::default();
    tilt.set_sensitivity(i64::MIN);
    assert_eq!(tilt.sensitivity, 500);
    tilt.set_sensitivity(i64::MAX);
    assert_eq!(tilt.sensitivity, 2000);
    tilt.set_sensitivity(-1);
    assert_eq!(tilt.sensitivity, 500);
    tilt.set_sensitivity(1500);
    assert_eq!(tilt.sensitivity, 1500);

    tilt.set_dead_zone(i64::MIN);
    assert_eq!(tilt.dead_zone, 0);
    tilt.set_dead_zone(i64::MAX);
    assert_eq!(tilt.dead_zone, 10_000);
    tilt.set_dead_zone(-1);
    assert_eq!(tilt.dead_zone, 0);
    tilt.set_dead_zone(300);
    assert_eq!(tilt.dead_zone, 300);
}

#[test]
fn calibrate_zero_point_freezes_the_current_orientation() {
    let mut tilt = TiltInput::default();
    tilt.update_orientation(0, 7000, -3000, 1);
    tilt.calibrate_zero_point();
    assert_eq!(tilt.zero_beta, 7000);
    assert_eq!(tilt.zero_gamma, -3000);
}

#[test]
fn disabled_input_yields_zero_tilt_and_unit_downward_gravity() {
    let mut tilt = TiltInput::default();
    tilt.filtered_beta = 123_456;
    tilt.filtered_gamma = -654_321;
    tilt.enabled = false;
    assert_eq!(tilt.get_normalized_tilt(), (0, 0));
    assert_eq!(tilt.get_gravity_direction(), (0, -1000));
}

#[test]
fn half_scale_tilt_normalizes_and_steers_gravity() {
    // filtered_gamma 22.5 degrees of the 45-degree scale is 0.5; with no
    // front-to-back tilt the biased vector (0.5, -1.0) normalizes to about
    // (0.447, -0.894).
    let mut tilt = TiltInput::default();
    tilt.filtered_gamma = 22_500;
    tilt.filtered_beta = 0;
    tilt.enabled = true;
    assert_eq!(tilt.get_normalized_tilt(), (500, 0));
    assert_eq!(tilt.get_gravity_direction(), (447, -894));
}

#[test]
fn normalized_tilt_clamps_to_full_scale() {
    let mut tilt = TiltInput::default();
    tilt.filtered_gamma = 90_000;
    tilt.filtered_beta = -90_000;
    tilt.enabled = true;
    assert_eq!(tilt.get_normalized_tilt(), (1000, -1000));
}

#[test]
fn full_tilt_gravity_keeps_a_downward_bias() {
    // Full left-right and front-back tilt: direction (1.0, -0.7) normalized.
    let mut tilt = TiltInput::default();
    tilt.filtered_gamma = 45_000;
    tilt.filtered_beta = 45_000;
    tilt.enabled = true;
    let (x, y) = tilt.get_gravity_direction();
    // length^2 = 1000^2 + 700^2 = 1_490_000, isqrt = 1220
    assert_eq!(x, 1000 * 1000 / 1220);
    assert_eq!(y, -(700 * 1000 / 1220));
    assert!(y < 0);
}

#[test]
fn debug_info_mentions_the_live_values() {
    let mut tilt = TiltInput::default();
    tilt.update_orientation(0, 5000, 0, 1);
    let line = tilt.get_debug_info();
    assert!(line.contains("5000"));
    assert!(line.contains("900"));
    assert!(line.contains("Device"));
}
