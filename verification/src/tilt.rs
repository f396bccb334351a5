//! Tilt input state: raw orientation, calibration offsets, dead-zone shaping,
//! sensitivity scaling and exponential smoothing, with normalized tilt and
//! gravity direction derived on demand.
//!
//! Angles are millidegrees; sensitivity and the derived vectors are in
//! thousandths (a component of 1000 stands for 1.0).

use vstd::prelude::*;

use crate::math::{
    abs_spec, clamp_i64, clamp_spec, div_trunc, div_trunc_i64, is_sqrt_floor, isqrt_u64,
    lemma_div_trunc_bounds, sqrt_floor,
};

verus! {

/// Lower bound of the sensitivity factor: 0.5x.
pub const SENSITIVITY_MIN: i64 = 500;

/// Upper bound of the sensitivity factor: 2.0x.
pub const SENSITIVITY_MAX: i64 = 2000;

/// Upper bound of the dead zone: 10 degrees.
pub const DEAD_ZONE_MAX: i64 = 10_000;

/// Default sensitivity: 1.0x.
pub const DEFAULT_SENSITIVITY: i64 = 1000;

/// Default dead zone: 2 degrees.
pub const DEFAULT_DEAD_ZONE: i64 = 2000;

/// Numerator of the fixed smoothing coefficient 0.3.
pub const EMA_NUMERATOR: i64 = 3;

/// Denominator of the fixed smoothing coefficient 0.3.
pub const EMA_DENOMINATOR: i64 = 10;

/// Full-scale tilt for normalization: 45 degrees.
pub const MAX_TILT_MDEG: i64 = 45_000;

/// One, in the thousandths scale of ratios and unit vectors.
pub const SCALE: i64 = 1000;

/// Numerator of the factor 0.3 by which forward-back tilt perturbs the
/// downward gravity component.
pub const TILT_INFLUENCE_NUM: i64 = 3;

/// Denominator of that factor.
pub const TILT_INFLUENCE_DEN: i64 = 10;

/// Largest magnitude a calibrated angle can reach: the span of two `i32`
/// millidegree values.
pub const RAW_SPAN: i64 = 4_294_967_296;

/// Bound that the filtered values never leave: twice `RAW_SPAN`, the largest
/// magnitude a scaled sample can reach.
pub const FILTERED_LIMIT: i64 = 8_589_934_592;

/// Where orientation samples come from.
#[derive(Debug, Clone, Copy, PartialEq, Eq, Structural)]
pub enum InputSource {
    Device,
    Keyboard,
    Virtual,
}

/// The tilt-input state: raw and filtered orientation, calibration offsets,
/// shaping parameters, and the input-source selection.
#[derive(Debug, Clone, Copy, PartialEq, Eq, Structural)]
pub struct TiltInput {
    /// Raw compass heading, millidegrees.
    pub alpha: i32,
    /// Raw front-to-back tilt, millidegrees.
    pub beta: i32,
    /// Raw left-to-right tilt, millidegrees.
    pub gamma: i32,
    /// Smoothed, calibrated front-to-back tilt, millidegrees.
    pub filtered_beta: i64,
    /// Smoothed, calibrated left-to-right tilt, millidegrees.
    pub filtered_gamma: i64,
    /// Calibration offset for beta, millidegrees.
    pub zero_beta: i32,
    /// Calibration offset for gamma, millidegrees.
    pub zero_gamma: i32,
    /// Sensitivity factor in thousandths, always within
    /// `[SENSITIVITY_MIN, SENSITIVITY_MAX]`.
    pub sensitivity: i64,
    /// Dead zone in millidegrees, always within `[0, DEAD_ZONE_MAX]`.
    pub dead_zone: i64,
    /// Whether tilt input drives the game.
    pub enabled: bool,
    /// Which producer feeds orientation samples.
    pub input_source: InputSource,
    /// Timestamp of the last accepted sample, milliseconds.
    pub last_update_time: u64,
}

/// Dead-zone shaping: inputs inside the zone collapse to zero; outside it the
/// magnitude is reduced by the zone's width, so the response is continuous at
/// the boundary.
pub open spec fn dead_zone_shape(v: int, dz: int) -> int
    recommends
        0 <= dz,
{
    if v >= dz {
        v - dz
    } else if v <= -dz {
        v + dz
    } else {
        0
    }
}

/// Sensitivity scaling: multiply by the thousandths factor `s`.
pub open spec fn scale_sensitivity(v: int, s: int) -> int {
    div_trunc(v * s, SCALE as int)
}

/// One step of the exponential moving average with the fixed coefficient 0.3:
/// `0.3 * cur + 0.7 * prev`, rounded toward zero.
pub open spec fn ema_step(prev: int, cur: int) -> int {
    div_trunc(
        EMA_NUMERATOR as int * cur + (EMA_DENOMINATOR - EMA_NUMERATOR) as int * prev,
        EMA_DENOMINATOR as int,
    )
}

/// The whole per-sample pipeline for one axis: calibrate, shape by the dead
/// zone, scale by sensitivity, then smooth.
pub open spec fn pipeline_output(raw: int, zero: int, dz: int, sens: int, prev: int) -> int {
    ema_step(prev, scale_sensitivity(dead_zone_shape(raw - zero, dz), sens))
}

/// One normalized component: the filtered angle over the 45-degree full
/// scale, in thousandths, clamped to [-1000, 1000].
pub open spec fn normalized_component(filtered: int) -> int {
    clamp_spec(div_trunc(filtered, (MAX_TILT_MDEG / SCALE) as int), -(SCALE as int), SCALE as int)
}

impl TiltInput {
    /// The invariant every mutation preserves: parameters inside their bounds
    /// and filtered values inside the range the pipeline can produce.
    pub open spec fn wf(&self) -> bool {
        &&& SENSITIVITY_MIN <= self.sensitivity <= SENSITIVITY_MAX
        &&& 0 <= self.dead_zone <= DEAD_ZONE_MAX
        &&& -FILTERED_LIMIT <= self.filtered_beta <= FILTERED_LIMIT
        &&& -FILTERED_LIMIT <= self.filtered_gamma <= FILTERED_LIMIT
    }

    /// The state every run starts from: level, uncalibrated, disabled,
    /// reading the device.
    pub open spec fn initial() -> TiltInput {
        TiltInput {
            alpha: 0,
            beta: 0,
            gamma: 0,
            filtered_beta: 0,
            filtered_gamma: 0,
            zero_beta: 0,
            zero_gamma: 0,
            sensitivity: DEFAULT_SENSITIVITY,
            dead_zone: DEFAULT_DEAD_ZONE,
            enabled: false,
            input_source: InputSource::Device,
            last_update_time: 0,
        }
    }

    /// The state after one sample has run through the pipeline.
    pub open spec fn update_spec(
        s: TiltInput,
        alpha: i32,
        beta: i32,
        gamma: i32,
        timestamp: u64,
    ) -> TiltInput {
        TiltInput {
            alpha: alpha,
            beta: beta,
            gamma: gamma,
            filtered_beta: pipeline_output(
                beta as int,
                s.zero_beta as int,
                s.dead_zone as int,
                s.sensitivity as int,
                s.filtered_beta as int,
            ) as i64,
            filtered_gamma: pipeline_output(
                gamma as int,
                s.zero_gamma as int,
                s.dead_zone as int,
                s.sensitivity as int,
                s.filtered_gamma as int,
            ) as i64,
            zero_beta: s.zero_beta,
            zero_gamma: s.zero_gamma,
            sensitivity: s.sensitivity,
            dead_zone: s.dead_zone,
            enabled: s.enabled,
            input_source: s.input_source,
            last_update_time: timestamp,
        }
    }

    /// The normalized tilt: zero when disabled, else each filtered axis over
    /// the 45-degree full scale, clamped to [-1.0, 1.0] in thousandths.
    pub open spec fn normalized_tilt_spec(&self) -> (int, int) {
        if !self.enabled {
            (0, 0)
        } else {
            (
                normalized_component(self.filtered_gamma as int),
                normalized_component(self.filtered_beta as int),
            )
        }
    }

    /// The gravity direction: straight down when disabled; otherwise the
    /// normalized tilt steers the x component while the y component keeps a
    /// dominant downward bias, and the result is normalized to (thousandths
    /// of) unit length.
    pub open spec fn gravity_direction_spec(&self) -> (int, int) {
        if !self.enabled {
            (0, -(SCALE as int))
        } else {
            let nx = normalized_component(self.filtered_gamma as int);
            let ny = normalized_component(self.filtered_beta as int);
            let gy = -(SCALE as int) + div_trunc(
                abs_spec(ny) * TILT_INFLUENCE_NUM as int,
                TILT_INFLUENCE_DEN as int,
            );
            let len = sqrt_floor(nx * nx + gy * gy);
            (div_trunc(nx * SCALE as int, len), div_trunc(gy * SCALE as int, len))
        }
    }
}

/// Dead-zone shaping never increases a value's magnitude.
pub proof fn lemma_dead_zone_bound(v: int, dz: int)
    requires
        0 <= dz,
    ensures
        abs_spec(dead_zone_shape(v, dz)) <= abs_spec(v),
{
}

/// Sensitivity scaling at most doubles a value's magnitude, the factor being
/// capped at 2.0x.
pub proof fn lemma_scale_bound(v: int, s: int, bound: int)
    requires
        abs_spec(v) <= bound,
        SENSITIVITY_MIN <= s <= SENSITIVITY_MAX,
    ensures
        abs_spec(scale_sensitivity(v, s)) <= 2 * bound,
{
    assert(abs_spec(v * s) <= 2000 * bound) by (nonlinear_arith)
        requires
            abs_spec(v) <= bound,
            500 <= s <= 2000,
    ;
    lemma_div_trunc_bounds(v * s, SCALE as int);
}

/// A smoothing step stays inside any bound that holds of both its inputs.
pub proof fn lemma_ema_bound(prev: int, cur: int, bound: int)
    requires
        abs_spec(prev) <= bound,
        abs_spec(cur) <= bound,
    ensures
        abs_spec(ema_step(prev, cur)) <= bound,
{
    lemma_div_trunc_bounds(3 * cur + 7 * prev, 10);
}

/// Running a sample through the pipeline preserves the invariant, and the
/// filtered results fit their fields without truncation.
pub proof fn lemma_update_spec_wf(s: TiltInput, alpha: i32, beta: i32, gamma: i32, timestamp: u64)
    requires
        s.wf(),
    ensures
        TiltInput::update_spec(s, alpha, beta, gamma, timestamp).wf(),
        TiltInput::update_spec(s, alpha, beta, gamma, timestamp).filtered_beta as int
            == pipeline_output(
            beta as int,
            s.zero_beta as int,
            s.dead_zone as int,
            s.sensitivity as int,
            s.filtered_beta as int,
        ),
        TiltInput::update_spec(s, alpha, beta, gamma, timestamp).filtered_gamma as int
            == pipeline_output(
            gamma as int,
            s.zero_gamma as int,
            s.dead_zone as int,
            s.sensitivity as int,
            s.filtered_gamma as int,
        ),
{
    lemma_dead_zone_bound(beta - s.zero_beta, s.dead_zone as int);
    lemma_dead_zone_bound(gamma - s.zero_gamma, s.dead_zone as int);
    lemma_scale_bound(
        dead_zone_shape(beta - s.zero_beta, s.dead_zone as int),
        s.sensitivity as int,
        RAW_SPAN as int,
    );
    lemma_scale_bound(
        dead_zone_shape(gamma - s.zero_gamma, s.dead_zone as int),
        s.sensitivity as int,
        RAW_SPAN as int,
    );
    lemma_ema_bound(
        s.filtered_beta as int,
        scale_sensitivity(dead_zone_shape(beta - s.zero_beta, s.dead_zone as int), s.sensitivity as int),
        FILTERED_LIMIT as int,
    );
    lemma_ema_bound(
        s.filtered_gamma as int,
        scale_sensitivity(dead_zone_shape(gamma - s.zero_gamma, s.dead_zone as int), s.sensitivity as int),
        FILTERED_LIMIT as int,
    );
}

impl Default for TiltInput {
    /// The documented initial state.
    fn default() -> (r: TiltInput)
        ensures
            r == TiltInput::initial(),
            r.wf(),
    {
        TiltInput {
            alpha: 0,
            beta: 0,
            gamma: 0,
            filtered_beta: 0,
            filtered_gamma: 0,
            zero_beta: 0,
            zero_gamma: 0,
            sensitivity: DEFAULT_SENSITIVITY,
            dead_zone: DEFAULT_DEAD_ZONE,
            enabled: false,
            input_source: InputSource::Device,
            last_update_time: 0,
        }
    }
}

impl TiltInput {
    /// Apply the dead zone to a calibrated value.
    pub fn apply_dead_zone(&self, value: i64) -> (r: i64)
        requires
            self.wf(),
        ensures
            r == dead_zone_shape(value as int, self.dead_zone as int),
    {
        if value >= self.dead_zone {
            value - self.dead_zone
        } else if value <= -self.dead_zone {
            value + self.dead_zone
        } else {
            0
        }
    }

    /// One step of the exponential moving average filter.
    pub fn ema_filter(&self, previous: i64, current: i64) -> (r: i64)
        requires
            -FILTERED_LIMIT <= previous <= FILTERED_LIMIT,
            -FILTERED_LIMIT <= current <= FILTERED_LIMIT,
        ensures
            r == ema_step(previous as int, current as int),
    {
        div_trunc_i64(3 * current + 7 * previous, 10)
    }

    /// Accept one orientation sample: store it raw, then run both tilt axes
    /// through calibration, dead-zone shaping, sensitivity scaling and
    /// smoothing.
    pub fn update_orientation(&mut self, alpha: i32, beta: i32, gamma: i32, timestamp: u64)
        requires
            old(self).wf(),
        ensures
            final(self).wf(),
            *final(self) == TiltInput::update_spec(*old(self), alpha, beta, gamma, timestamp),
    {
        proof {
            lemma_update_spec_wf(*self, alpha, beta, gamma, timestamp);
        }
        self.alpha = alpha;
        self.beta = beta;
        self.gamma = gamma;
        self.last_update_time = timestamp;

        let calibrated_beta: i64 = beta as i64 - self.zero_beta as i64;
        let calibrated_gamma: i64 = gamma as i64 - self.zero_gamma as i64;

        let beta_with_deadzone = self.apply_dead_zone(calibrated_beta);
        let gamma_with_deadzone = self.apply_dead_zone(calibrated_gamma);

        proof {
            lemma_dead_zone_bound(calibrated_beta as int, self.dead_zone as int);
            lemma_dead_zone_bound(calibrated_gamma as int, self.dead_zone as int);
            assert(abs_spec(beta_with_deadzone as int * self.sensitivity as int) <= 2000
                * RAW_SPAN) by (nonlinear_arith)
                requires
                    abs_spec(beta_with_deadzone as int) <= RAW_SPAN,
                    500 <= self.sensitivity <= 2000,
            ;
            assert(abs_spec(gamma_with_deadzone as int * self.sensitivity as int) <= 2000
                * RAW_SPAN) by (nonlinear_arith)
                requires
                    abs_spec(gamma_with_deadzone as int) <= RAW_SPAN,
                    500 <= self.sensitivity <= 2000,
            ;
            lemma_scale_bound(beta_with_deadzone as int, self.sensitivity as int, RAW_SPAN as int);
            lemma_scale_bound(gamma_with_deadzone as int, self.sensitivity as int, RAW_SPAN as int);
        }
        let scaled_beta = div_trunc_i64(beta_with_deadzone * self.sensitivity, SCALE);
        let scaled_gamma = div_trunc_i64(gamma_with_deadzone * self.sensitivity, SCALE);

        self.filtered_beta = self.ema_filter(self.filtered_beta, scaled_beta);
        self.filtered_gamma = self.ema_filter(self.filtered_gamma, scaled_gamma);
    }

    /// The normalized tilt, each component in thousandths of full scale,
    /// clamped to [-1000, 1000]; zero while disabled.
    pub fn get_normalized_tilt(&self) -> (r: (i64, i64))
        requires
            self.wf(),
        ensures
            (r.0 as int, r.1 as int) == self.normalized_tilt_spec(),
            -SCALE <= r.0 <= SCALE,
            -SCALE <= r.1 <= SCALE,
    {
        if !self.enabled {
            return (0, 0);
        }
        let x = clamp_i64(div_trunc_i64(self.filtered_gamma, 45), -SCALE, SCALE);
        let y = clamp_i64(div_trunc_i64(self.filtered_beta, 45), -SCALE, SCALE);
        (x, y)
    }

    /// The gravity direction as thousandths of a unit vector: exactly
    /// straight down while disabled; otherwise steered by the normalized
    /// tilt, with the downward component dominant.
    pub fn get_gravity_direction(&self) -> (r: (i64, i64))
        requires
            self.wf(),
        ensures
            (r.0 as int, r.1 as int) == self.gravity_direction_spec(),
            !self.enabled ==> r.0 == 0 && r.1 == -SCALE,
            -1500 <= r.0 <= 1500,
            -1500 <= r.1 <= 0,
    {
        if !self.enabled {
            return (0, -SCALE);
        }
        let (nx, ny) = self.get_normalized_tilt();
        let ny_abs = if ny >= 0 {
            ny
        } else {
            -ny
        };
        let gy = -SCALE + div_trunc_i64(ny_abs * TILT_INFLUENCE_NUM, TILT_INFLUENCE_DEN);
        proof {
            lemma_div_trunc_bounds(ny_abs as int * 3, 10);
        }
        assert(-SCALE <= gy <= -700);
        proof {
            assert(0 <= nx as int * nx as int <= 1_000_000) by (nonlinear_arith)
                requires
                    -1000 <= nx <= 1000,
            ;
            assert(490_000 <= gy as int * gy as int <= 1_000_000) by (nonlinear_arith)
                requires
                    -1000 <= gy <= -700,
            ;
        }
        let len_sq = nx * nx + gy * gy;
        let len = isqrt_u64(len_sq as u64);
        proof {
            assert(len >= 700) by (nonlinear_arith)
                requires
                    is_sqrt_floor(len_sq as int, len as int),
                    len_sq >= 490_000,
            ;
            assert(len <= 1415) by (nonlinear_arith)
                requires
                    is_sqrt_floor(len_sq as int, len as int),
                    len_sq <= 2_000_000,
            ;
        }
        let gx_out = div_trunc_i64(nx * SCALE, len as i64);
        let gy_out = div_trunc_i64(gy * SCALE, len as i64);
        proof {
            lemma_div_trunc_bounds(nx as int * 1000, len as int);
            lemma_div_trunc_bounds(gy as int * 1000, len as int);
            assert(-1500 <= gx_out <= 1500 && -1500 <= gy_out <= 1500) by (nonlinear_arith)
                requires
                    700 <= len <= 1415,
                    len as int * (gx_out as int) <= abs_spec(nx as int * 1000) <= 1_000_000,
                    -(len as int * (gx_out as int)) <= 1_000_000,
                    len as int * (gy_out as int) <= abs_spec(gy as int * 1000) <= 1_000_000,
                    -(len as int * (gy_out as int)) <= 1_000_000,
            ;
        }
        (gx_out, gy_out)
    }

    /// Freeze the current raw orientation as the zero point.
    pub fn calibrate_zero_point(&mut self)
        requires
            old(self).wf(),
        ensures
            final(self).wf(),
            *final(self) == (TiltInput {
                zero_beta: old(self).beta,
                zero_gamma: old(self).gamma,
                ..*old(self)
            }),
    {
        self.zero_beta = self.beta;
        self.zero_gamma = self.gamma;
    }

    /// Store a sensitivity factor, clamped to [0.5x, 2.0x] whatever was
    /// asked for.
    pub fn set_sensitivity(&mut self, sensitivity: i64)
        requires
            old(self).wf(),
        ensures
            final(self).wf(),
            final(self).sensitivity as int == clamp_spec(
                sensitivity as int,
                SENSITIVITY_MIN as int,
                SENSITIVITY_MAX as int,
            ),
            *final(self) == (TiltInput { sensitivity: final(self).sensitivity, ..*old(self) }),
    {
        self.sensitivity = clamp_i64(sensitivity, SENSITIVITY_MIN, SENSITIVITY_MAX);
    }

    /// Store a dead zone in millidegrees, clamped to [0, 10 degrees]
    /// whatever was asked for.
    pub fn set_dead_zone(&mut self, dead_zone: i64)
        requires
            old(self).wf(),
        ensures
            final(self).wf(),
            final(self).dead_zone as int == clamp_spec(dead_zone as int, 0, DEAD_ZONE_MAX as int),
            *final(self) == (TiltInput { dead_zone: final(self).dead_zone, ..*old(self) }),
    {
        self.dead_zone = clamp_i64(dead_zone, 0, DEAD_ZONE_MAX);
    }

    /// Select which producer feeds orientation samples.
    pub fn set_input_source(&mut self, source: InputSource)
        requires
            old(self).wf(),
        ensures
            final(self).wf(),
            *final(self) == (TiltInput { input_source: source, ..*old(self) }),
    {
        self.input_source = source;
    }

    /// Enable or disable tilt input.
    pub fn set_enabled(&mut self, enabled: bool)
        requires
            old(self).wf(),
        ensures
            final(self).wf(),
            *final(self) == (TiltInput { enabled: enabled, ..*old(self) }),
    {
        self.enabled = enabled;
    }

    /// A human-readable status line; informational only, no contract depends
    /// on its text.
    pub fn get_debug_info(&self) -> String
        requires
            self.wf(),
    {
        let (nx, ny) = self.get_normalized_tilt();
        format_debug_info(
            self.beta,
            self.gamma,
            self.filtered_beta,
            self.filtered_gamma,
            nx,
            ny,
            self.enabled,
            self.input_source,
        )
    }
}

/// Relies on std's `format!` to render the status line; the text is
/// informational only and nothing is claimed of it.
#[verifier::external_body]
fn format_debug_info(
    beta: i32,
    gamma: i32,
    filtered_beta: i64,
    filtered_gamma: i64,
    nx: i64,
    ny: i64,
    enabled: bool,
    source: InputSource,
) -> String {
    format!(
        "TiltInput - Raw: b={}mdeg g={}mdeg | Filtered: b={}mdeg g={}mdeg | Normalized: {},{} | Enabled: {} | Source: {:?}",
        beta, gamma, filtered_beta, filtered_gamma, nx, ny, enabled, source,
    )
}

/// Dead-zone shaping is continuous: moving the input moves the output by no
/// more, so just above the boundary the output is near zero, and far above it
/// the output is near the input less the zone's width.
pub proof fn lemma_dead_zone_continuous(v: int, w: int, dz: int)
    requires
        0 <= dz,
    ensures
        abs_spec(dead_zone_shape(v, dz) - dead_zone_shape(w, dz)) <= abs_spec(v - w),
{
}

/// The smoothing filter holds its fixed point: when the filtered value
/// already equals the incoming scaled value, one more step leaves it
/// unchanged.
pub proof fn lemma_ema_fixed_point(x: int)
    ensures
        ema_step(x, x) == x,
{
    assert(3 * x + 7 * x == 10 * x);
    if x >= 0 {
        vstd::arithmetic::div_mod::lemma_div_multiples_vanish(x, 10);
    } else {
        vstd::arithmetic::div_mod::lemma_div_multiples_vanish(-x, 10);
        assert(-(10 * x) == 10 * -x);
    }
}

/// Under a constant input, each smoothing step moves the filtered value no
/// farther from the scaled input, and strictly closer while the gap exceeds
/// three; repeated application therefore settles within three thousandths of
/// a degree of the scaled input.
pub proof fn lemma_ema_converges(prev: int, cur: int)
    ensures
        abs_spec(ema_step(prev, cur) - cur) <= abs_spec(prev - cur),
        abs_spec(prev - cur) >= 4 ==> abs_spec(ema_step(prev, cur) - cur) < abs_spec(prev - cur),
{
    if prev == cur {
        lemma_ema_fixed_point(cur);
    } else {
        let t = 3 * cur + 7 * prev;
        let q = ema_step(prev, cur);
        lemma_div_trunc_bounds(t, 10);
        let r = t - 10 * q;
        assert(abs_spec(r) < 10);
        let d = prev - cur;
        assert(10 * (q - cur) == 7 * d - r);
        if abs_spec(d) >= 3 {
            assert(abs_spec(7 * d - r) <= 7 * abs_spec(d) + 9);
        } else {
            assert(abs_spec(7 * d - r) <= 23);
        }
    }
}

/// Feeding the same sample again never moves a filtered axis away from the
/// sample's scaled value, and once a filtered axis equals that value it stays
/// there: a constant input stream converges to its scaled input.
pub proof fn lemma_update_constant_input_converges(
    s: TiltInput,
    alpha: i32,
    beta: i32,
    gamma: i32,
    t1: u64,
    t2: u64,
)
    requires
        s.wf(),
    ensures
        ({
            let target_beta = scale_sensitivity(
                dead_zone_shape(beta - s.zero_beta, s.dead_zone as int),
                s.sensitivity as int,
            );
            let target_gamma = scale_sensitivity(
                dead_zone_shape(gamma - s.zero_gamma, s.dead_zone as int),
                s.sensitivity as int,
            );
            let s1 = TiltInput::update_spec(s, alpha, beta, gamma, t1);
            let s2 = TiltInput::update_spec(s1, alpha, beta, gamma, t2);
            &&& s1.wf()
            &&& abs_spec(s2.filtered_beta - target_beta) <= abs_spec(s1.filtered_beta - target_beta)
            &&& abs_spec(s2.filtered_gamma - target_gamma) <= abs_spec(
                s1.filtered_gamma - target_gamma,
            )
            &&& abs_spec(s1.filtered_beta - target_beta) >= 4 ==> abs_spec(
                s2.filtered_beta - target_beta,
            ) < abs_spec(s1.filtered_beta - target_beta)
            &&& abs_spec(s1.filtered_gamma - target_gamma) >= 4 ==> abs_spec(
                s2.filtered_gamma - target_gamma,
            ) < abs_spec(s1.filtered_gamma - target_gamma)
            &&& s1.filtered_beta == target_beta ==> s2.filtered_beta == target_beta
            &&& s1.filtered_gamma == target_gamma ==> s2.filtered_gamma == target_gamma
        }),
{
    let target_beta = scale_sensitivity(
        dead_zone_shape(beta - s.zero_beta, s.dead_zone as int),
        s.sensitivity as int,
    );
    let target_gamma = scale_sensitivity(
        dead_zone_shape(gamma - s.zero_gamma, s.dead_zone as int),
        s.sensitivity as int,
    );
    let s1 = TiltInput::update_spec(s, alpha, beta, gamma, t1);
    let s2 = TiltInput::update_spec(s1, alpha, beta, gamma, t2);
    lemma_update_spec_wf(s, alpha, beta, gamma, t1);
    lemma_update_spec_wf(s1, alpha, beta, gamma, t2);
    lemma_ema_converges(s1.filtered_beta as int, target_beta);
    lemma_ema_converges(s1.filtered_gamma as int, target_gamma);
    lemma_ema_fixed_point(target_beta);
    lemma_ema_fixed_point(target_gamma);
}

} // verus!
