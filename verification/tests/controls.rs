//! The control handlers: calibration commands, the keyboard and virtual
//! producers, and the throttled gravity step.

use tilt_core::calibration::{
    handle_calibration_input, handle_keyboard_tilt_input, handle_virtual_tilt_input,
    CalibrationControls, TiltKeys,
};
use tilt_core::gravity::{update_gravity, GravityManager};
use tilt_core::tilt::{InputSource, TiltInput};

#[test]
fn calibrate_command_freezes_the_zero_point() {
    let mut tilt = TiltInput::default();
    tilt.update_orientation(0, 4000, -1000, 1);
    let controls = CalibrationControls { calibrate: true, ..CalibrationControls::default() };
    handle_calibration_input(&mut tilt, &controls);
    assert_eq!(tilt.zero_beta, 4000);
    assert_eq!(tilt.zero_gamma, -1000);
}

#[test]
fn sensitivity_presets_select_the_ladder() {
    let mut tilt = TiltInput::default();
    let mut controls = CalibrationControls::default();
    controls.sensitivity_half = true;
    handle_calibration_input(&mut tilt, &controls);
    assert_eq!(tilt.sensitivity, 500);

    let mut controls = CalibrationControls::default();
    controls.sensitivity_double = true;
    handle_calibration_input(&mut tilt, &controls);
    assert_eq!(tilt.sensitivity, 2000);

    let mut controls = CalibrationControls::default();
    controls.sensitivity_normal = true;
    handle_calibration_input(&mut tilt, &controls);
    assert_eq!(tilt.sensitivity, 1000);

    let mut controls = CalibrationControls::default();
    controls.sensitivity_high = true;
    handle_calibration_input(&mut tilt, &controls);
    assert_eq!(tilt.sensitivity, 1500);
}

#[test]
fn source_cycles_device_keyboard_virtual_device() {
    let mut tilt = TiltInput::default();
    assert_eq!(tilt.input_source, InputSource::Device);
    let controls = CalibrationControls { cycle_source: true, ..CalibrationControls::default() };
    handle_calibration_input(&mut tilt, &controls);
    assert_eq!(tilt.input_source, InputSource::Keyboard);
    handle_calibration_input(&mut tilt, &controls);
    assert_eq!(tilt.input_source, InputSource::Virtual);
    handle_calibration_input(&mut tilt, &controls);
    assert_eq!(tilt.input_source, InputSource::Device);
}

#[test]
fn dead_zone_steps_by_half_a_degree_and_clamps() {
    let mut tilt = TiltInput::default();
    assert_eq!(tilt.dead_zone, 2000);
    let widen = CalibrationControls { dead_zone_increase: true, ..CalibrationControls::default() };
    handle_calibration_input(&mut tilt, &widen);
    assert_eq!(tilt.dead_zone, 2500);

    let narrow = CalibrationControls { dead_zone_decrease: true, ..CalibrationControls::default() };
    for _ in 0..10 {
        handle_calibration_input(&mut tilt, &narrow);
    }
    assert_eq!(tilt.dead_zone, 0);

    for _ in 0..25 {
        handle_calibration_input(&mut tilt, &widen);
    }
    assert_eq!(tilt.dead_zone, 10_000);
}

#[test]
fn holding_tilt_right_integrates_then_clamps() {
    // 30 degrees per second: one simulated second reaches 30 degrees, half a
    // second more reaches the 45-degree clamp.
    let mut tilt = TiltInput::default();
    tilt.set_input_source(InputSource::Keyboard);
    let keys = TiltKeys { right: true, ..TiltKeys::default() };
    let mut now: u64 = 0;
    for _ in 0..10 {
        now += 100;
        handle_keyboard_tilt_input(&mut tilt, &keys, now, 100);
    }
    assert_eq!(tilt.gamma, 30_000);
    assert!(tilt.enabled);
    for _ in 0..5 {
        now += 100;
        handle_keyboard_tilt_input(&mut tilt, &keys, now, 100);
    }
    assert_eq!(tilt.gamma, 45_000);
    for _ in 0..5 {
        now += 100;
        handle_keyboard_tilt_input(&mut tilt, &keys, now, 100);
    }
    assert_eq!(tilt.gamma, 45_000);
}

#[test]
fn keyboard_producer_is_inert_for_other_sources() {
    let mut tilt = TiltInput::default();
    let before = tilt;
    let keys = TiltKeys { left: true, up: true, ..TiltKeys::default() };
    handle_keyboard_tilt_input(&mut tilt, &keys, 100, 100);
    assert_eq!(tilt, before);
}

#[test]
fn virtual_producer_only_enables_its_own_source() {
    let mut tilt = TiltInput::default();
    handle_virtual_tilt_input(&mut tilt);
    assert!(!tilt.enabled);
    tilt.set_input_source(InputSource::Virtual);
    handle_virtual_tilt_input(&mut tilt);
    assert!(tilt.enabled);
}

#[test]
fn gravity_step_throttles_to_its_interval() {
    let mut manager = GravityManager::new();
    let tilt = TiltInput::default();
    assert!(update_gravity(&mut manager, &tilt, 5).is_none());
    let g = update_gravity(&mut manager, &tilt, 16);
    assert_eq!(g, Some((0, -980_000)));
    assert!(update_gravity(&mut manager, &tilt, 20).is_none());
    assert!(update_gravity(&mut manager, &tilt, 32).is_some());
}

#[test]
fn gravity_step_scales_the_steered_direction() {
    let mut manager = GravityManager::new();
    let mut tilt = TiltInput::default();
    tilt.filtered_gamma = 22_500;
    tilt.enabled = true;
    let g = update_gravity(&mut manager, &tilt, 100);
    // direction (447, -894) in thousandths, scaled by 980.
    assert_eq!(g, Some((447 * 980, -894 * 980)));
}

#[test]
fn gravity_step_skips_when_time_runs_backwards() {
    let mut manager = GravityManager::new();
    let tilt = TiltInput::default();
    assert!(update_gravity(&mut manager, &tilt, 1000).is_some());
    assert!(update_gravity(&mut manager, &tilt, 900).is_none());
    assert_eq!(manager.last_gravity_update, 1000);
}
