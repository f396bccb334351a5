//! Control handlers: discrete calibration commands, and the keyboard and
//! virtual sample producers that stand in for the device.

use vstd::prelude::*;

use crate::math::{clamp_i64, clamp_spec};
use crate::tilt::{
    InputSource, TiltInput, DEAD_ZONE_MAX, MAX_TILT_MDEG, SENSITIVITY_MAX, SENSITIVITY_MIN,
};

verus! {

/// How far one dead-zone command moves the zone: half a degree.
pub const DEAD_ZONE_STEP: i64 = 500;

/// How fast held keys tilt the synthetic orientation: 30 degrees per second,
/// which is 30 millidegrees per millisecond.
pub const KEYBOARD_TILT_RATE: i64 = 30;

/// One frame's worth of discrete calibration commands.
#[derive(Debug, Clone, Copy, PartialEq, Eq, Structural)]
pub struct CalibrationControls {
    /// Freeze the current orientation as the zero point.
    pub calibrate: bool,
    /// Select the 0.5x sensitivity preset.
    pub sensitivity_half: bool,
    /// Select the 1.0x sensitivity preset.
    pub sensitivity_normal: bool,
    /// Select the 1.5x sensitivity preset.
    pub sensitivity_high: bool,
    /// Select the 2.0x sensitivity preset.
    pub sensitivity_double: bool,
    /// Step the input source to the next one in the cycle.
    pub cycle_source: bool,
    /// Widen the dead zone by half a degree.
    pub dead_zone_increase: bool,
    /// Narrow the dead zone by half a degree.
    pub dead_zone_decrease: bool,
}

impl Default for CalibrationControls {
    /// No command issued.
    fn default() -> (r: CalibrationControls)
        ensures
            r == (CalibrationControls {
                calibrate: false,
                sensitivity_half: false,
                sensitivity_normal: false,
                sensitivity_high: false,
                sensitivity_double: false,
                cycle_source: false,
                dead_zone_increase: false,
                dead_zone_decrease: false,
            }),
    {
        CalibrationControls {
            calibrate: false,
            sensitivity_half: false,
            sensitivity_normal: false,
            sensitivity_high: false,
            sensitivity_double: false,
            cycle_source: false,
            dead_zone_increase: false,
            dead_zone_decrease: false,
        }
    }
}

/// The input-source cycle: Device, then Keyboard, then Virtual, then Device
/// again.
pub open spec fn next_input_source(source: InputSource) -> InputSource {
    match source {
        InputSource::Device => InputSource::Keyboard,
        InputSource::Keyboard => InputSource::Virtual,
        InputSource::Virtual => InputSource::Device,
    }
}

/// The state after one frame of calibration commands, applied in a fixed
/// order: calibrate, sensitivity presets from low to high, source cycling,
/// dead-zone widening, dead-zone narrowing.
pub open spec fn calibration_spec(t: TiltInput, c: CalibrationControls) -> TiltInput {
    let t1 = if c.calibrate {
        TiltInput { zero_beta: t.beta, zero_gamma: t.gamma, ..t }
    } else {
        t
    };
    let t2 = if c.sensitivity_half {
        TiltInput { sensitivity: 500, ..t1 }
    } else {
        t1
    };
    let t3 = if c.sensitivity_normal {
        TiltInput { sensitivity: 1000, ..t2 }
    } else {
        t2
    };
    let t4 = if c.sensitivity_high {
        TiltInput { sensitivity: 1500, ..t3 }
    } else {
        t3
    };
    let t5 = if c.sensitivity_double {
        TiltInput { sensitivity: 2000, ..t4 }
    } else {
        t4
    };
    let t6 = if c.cycle_source {
        TiltInput { input_source: next_input_source(t5.input_source), ..t5 }
    } else {
        t5
    };
    let t7 = if c.dead_zone_increase {
        TiltInput {
            dead_zone: clamp_spec(t6.dead_zone + DEAD_ZONE_STEP, 0, DEAD_ZONE_MAX as int) as i64,
            ..t6
        }
    } else {
        t6
    };
    if c.dead_zone_decrease {
        TiltInput {
            dead_zone: clamp_spec(t7.dead_zone - DEAD_ZONE_STEP, 0, DEAD_ZONE_MAX as int) as i64,
            ..t7
        }
    } else {
        t7
    }
}

/// Apply one frame of discrete calibration commands to the tilt state.
pub fn handle_calibration_input(tilt_input: &mut TiltInput, controls: &CalibrationControls)
    requires
        old(tilt_input).wf(),
    ensures
        final(tilt_input).wf(),
        *final(tilt_input) == calibration_spec(*old(tilt_input), *controls),
{
    if controls.calibrate {
        tilt_input.calibrate_zero_point();
    }
    if controls.sensitivity_half {
        tilt_input.set_sensitivity(500);
    }
    if controls.sensitivity_normal {
        tilt_input.set_sensitivity(1000);
    }
    if controls.sensitivity_high {
        tilt_input.set_sensitivity(1500);
    }
    if controls.sensitivity_double {
        tilt_input.set_sensitivity(2000);
    }
    if controls.cycle_source {
        let next = match tilt_input.input_source {
            InputSource::Device => InputSource::Keyboard,
            InputSource::Keyboard => InputSource::Virtual,
            InputSource::Virtual => InputSource::Device,
        };
        tilt_input.set_input_source(next);
    }
    if controls.dead_zone_increase {
        let widened = tilt_input.dead_zone + DEAD_ZONE_STEP;
        tilt_input.set_dead_zone(widened);
    }
    if controls.dead_zone_decrease {
        let narrowed = tilt_input.dead_zone - DEAD_ZONE_STEP;
        tilt_input.set_dead_zone(narrowed);
    }
}

/// Which direction keys are held this frame, for the keyboard producer.
#[derive(Debug, Clone, Copy, PartialEq, Eq, Structural)]
pub struct TiltKeys {
    pub left: bool,
    pub right: bool,
    pub up: bool,
    pub down: bool,
}

impl Default for TiltKeys {
    /// No key held.
    fn default() -> (r: TiltKeys)
        ensures
            r == (TiltKeys { left: false, right: false, up: false, down: false }),
    {
        TiltKeys { left: false, right: false, up: false, down: false }
    }
}

/// The state after one frame of keyboard-synthesized tilt: while the keyboard
/// is the input source, held keys integrate a fixed angular rate into the raw
/// angles, both axes clamp to the 45-degree range, the sample runs through
/// the pipeline, and input is enabled; otherwise nothing changes.
pub open spec fn keyboard_tilt_spec(
    t: TiltInput,
    keys: TiltKeys,
    now_ms: u64,
    delta_ms: u32,
) -> TiltInput {
    if t.input_source != InputSource::Keyboard {
        t
    } else {
        let increment = KEYBOARD_TILT_RATE as int * delta_ms as int;
        let gamma_moved = t.gamma - (if keys.left {
            increment
        } else {
            0
        }) + (if keys.right {
            increment
        } else {
            0
        });
        let beta_moved = t.beta - (if keys.up {
            increment
        } else {
            0
        }) + (if keys.down {
            increment
        } else {
            0
        });
        let beta_clamped = clamp_spec(beta_moved, -(MAX_TILT_MDEG as int), MAX_TILT_MDEG as int);
        let gamma_clamped = clamp_spec(gamma_moved, -(MAX_TILT_MDEG as int), MAX_TILT_MDEG as int);
        let updated = TiltInput::update_spec(
            t,
            0,
            beta_clamped as i32,
            gamma_clamped as i32,
            now_ms,
        );
        TiltInput { enabled: true, ..updated }
    }
}

/// Keyboard fallback producer: synthesize one orientation sample per frame
/// from the held direction keys and feed it through the pipeline.
pub fn handle_keyboard_tilt_input(
    tilt_input: &mut TiltInput,
    keys: &TiltKeys,
    now_ms: u64,
    delta_ms: u32,
)
    requires
        old(tilt_input).wf(),
    ensures
        final(tilt_input).wf(),
        *final(tilt_input) == keyboard_tilt_spec(*old(tilt_input), *keys, now_ms, delta_ms),
{
    if tilt_input.input_source != InputSource::Keyboard {
        return ;
    }
    let increment: i64 = KEYBOARD_TILT_RATE * (delta_ms as i64);
    let mut gamma: i64 = tilt_input.gamma as i64;
    let mut beta: i64 = tilt_input.beta as i64;
    if keys.left {
        gamma = gamma - increment;
    }
    if keys.right {
        gamma = gamma + increment;
    }
    if keys.up {
        beta = beta - increment;
    }
    if keys.down {
        beta = beta + increment;
    }
    let beta_clamped = clamp_i64(beta, -MAX_TILT_MDEG, MAX_TILT_MDEG);
    let gamma_clamped = clamp_i64(gamma, -MAX_TILT_MDEG, MAX_TILT_MDEG);
    tilt_input.update_orientation(0, beta_clamped as i32, gamma_clamped as i32, now_ms);
    tilt_input.set_enabled(true);
}

/// Only the "tilt right" control held.
pub open spec fn right_held() -> TiltKeys {
    TiltKeys { left: false, right: true, up: false, down: false }
}

/// The state after a run of keyboard frames, `deltas` holding each frame's
/// duration in milliseconds, with only "tilt right" held throughout.
pub open spec fn hold_right_spec(t: TiltInput, deltas: Seq<u32>, now_ms: u64) -> TiltInput
    decreases deltas.len(),
{
    if deltas.len() == 0 {
        t
    } else {
        keyboard_tilt_spec(hold_right_spec(t, deltas.drop_last(), now_ms), right_held(), now_ms, deltas.last())
    }
}

/// The total duration of a run of frames, milliseconds.
pub open spec fn total_millis(deltas: Seq<u32>) -> int
    decreases deltas.len(),
{
    if deltas.len() == 0 {
        0
    } else {
        total_millis(deltas.drop_last()) + deltas.last()
    }
}

/// Holding "tilt right" integrates the fixed 30-degrees-per-second rate and
/// clamps at 45 degrees, however the time is split into frames: after frames
/// totalling T milliseconds the raw left-right angle is exactly
/// `clamp(gamma + 30 * T, 45 degrees)` — one second from level reaches 30
/// degrees, and from one and a half seconds on it stays pinned at 45.
pub proof fn lemma_hold_right_integrates(t: TiltInput, deltas: Seq<u32>, now_ms: u64)
    requires
        t.input_source == InputSource::Keyboard,
        -MAX_TILT_MDEG <= t.gamma <= MAX_TILT_MDEG,
    ensures
        hold_right_spec(t, deltas, now_ms).input_source == InputSource::Keyboard,
        0 <= total_millis(deltas),
        hold_right_spec(t, deltas, now_ms).gamma as int == clamp_spec(
            t.gamma + KEYBOARD_TILT_RATE as int * total_millis(deltas),
            -(MAX_TILT_MDEG as int),
            MAX_TILT_MDEG as int,
        ),
    decreases deltas.len(),
{
    if deltas.len() > 0 {
        lemma_hold_right_integrates(t, deltas.drop_last(), now_ms);
        let prev = hold_right_spec(t, deltas.drop_last(), now_ms);
        let sum_before = total_millis(deltas.drop_last());
        let step = 30 * deltas.last() as int;
        assert(30 * total_millis(deltas) == 30 * sum_before + step) by (nonlinear_arith)
            requires
                total_millis(deltas) == sum_before + deltas.last(),
                step == 30 * deltas.last() as int,
        ;
        // The per-frame clamp composes with the whole-run clamp because the
        // increments never point below the lower bound.
        assert(clamp_spec(
            clamp_spec(t.gamma + 30 * sum_before, -45000, 45000) + step,
            -45000,
            45000,
        ) == clamp_spec(t.gamma + 30 * sum_before + step, -45000, 45000));
    }
}

/// Virtual producer: until an on-screen control feeds real samples, just keep
/// input enabled while the virtual source is selected; otherwise nothing
/// changes.
pub fn handle_virtual_tilt_input(tilt_input: &mut TiltInput)
    requires
        old(tilt_input).wf(),
    ensures
        final(tilt_input).wf(),
        *final(tilt_input) == if old(tilt_input).input_source == InputSource::Virtual {
            TiltInput { enabled: true, ..*old(tilt_input) }
        } else {
            *old(tilt_input)
        },
{
    if tilt_input.input_source != InputSource::Virtual {
        return ;
    }
    tilt_input.set_enabled(true);
}

} // verus!
