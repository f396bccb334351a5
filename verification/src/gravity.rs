//! The per-frame gravity step: throttled to a fixed interval, it turns the
//! derived gravity direction into a scaled vector for the physics
//! collaborator.

use vstd::prelude::*;

use crate::tilt::TiltInput;

verus! {

/// Default gravity magnitude: 980 units per second squared, one unit being a
/// hundredth of a meter under the 100-units-per-meter convention.
pub const DEFAULT_BASE_GRAVITY: i64 = 980;

/// Default throttle interval: 16 milliseconds, about 60 Hz.
pub const GRAVITY_UPDATE_INTERVAL_MS: u64 = 16;

/// Largest magnitude the gravity-direction components can reach, in
/// thousandths.
pub const DIRECTION_LIMIT: i64 = 1500;

/// Largest base gravity the step accepts without overflowing the scaled
/// vector.
pub const BASE_GRAVITY_LIMIT: i64 = 1_000_000;

/// The throttle state and magnitude of the gravity step.
#[derive(Debug, Clone, Copy, PartialEq, Eq, Structural)]
pub struct GravityManager {
    /// Gravity magnitude, units per second squared.
    pub base_gravity: i64,
    /// When gravity was last recomputed, milliseconds.
    pub last_gravity_update: u64,
    /// Minimum time between recomputations, milliseconds.
    pub update_interval: u64,
}

impl GravityManager {
    /// The invariant: a non-negative magnitude small enough that the scaled
    /// vector cannot overflow.
    pub open spec fn wf(&self) -> bool {
        0 <= self.base_gravity <= BASE_GRAVITY_LIMIT
    }

    /// The standard configuration: 980 units of gravity, refreshed at most
    /// every 16 milliseconds.
    pub fn new() -> (r: GravityManager)
        ensures
            r.wf(),
            r == (GravityManager {
                base_gravity: DEFAULT_BASE_GRAVITY,
                last_gravity_update: 0,
                update_interval: GRAVITY_UPDATE_INTERVAL_MS,
            }),
    {
        GravityManager {
            base_gravity: DEFAULT_BASE_GRAVITY,
            last_gravity_update: 0,
            update_interval: GRAVITY_UPDATE_INTERVAL_MS,
        }
    }
}

impl Default for GravityManager {
    /// The same standard configuration.
    fn default() -> (r: GravityManager)
        ensures
            r.wf(),
            r == (GravityManager {
                base_gravity: DEFAULT_BASE_GRAVITY,
                last_gravity_update: 0,
                update_interval: GRAVITY_UPDATE_INTERVAL_MS,
            }),
    {
        GravityManager::new()
    }
}

/// The gravity vector published when an update is due: the direction in
/// thousandths of a unit vector, each component scaled by the magnitude (so
/// the result is in thousandths of a unit per second squared).
pub open spec fn gravity_vector_spec(t: TiltInput, base: int) -> (int, int) {
    (t.gravity_direction_spec().0 * base, t.gravity_direction_spec().1 * base)
}

/// Per-frame gravity step: skip while the interval since the last update has
/// not elapsed (or time ran backwards); otherwise record the time and return
/// the scaled gravity vector for the physics collaborator.
pub fn update_gravity(
    gravity_manager: &mut GravityManager,
    tilt_input: &TiltInput,
    now_ms: u64,
) -> (g: Option<(i64, i64)>)
    requires
        old(gravity_manager).wf(),
        tilt_input.wf(),
    ensures
        final(gravity_manager).wf(),
        final(gravity_manager).base_gravity == old(gravity_manager).base_gravity,
        final(gravity_manager).update_interval == old(gravity_manager).update_interval,
        ({
            let due = old(gravity_manager).last_gravity_update
                + old(gravity_manager).update_interval <= now_ms;
            &&& !due ==> g is None && *final(gravity_manager) == *old(gravity_manager)
            &&& due ==> final(gravity_manager).last_gravity_update == now_ms
            &&& due ==> (g matches Some(v) && (v.0 as int, v.1 as int) == gravity_vector_spec(
                *tilt_input,
                old(gravity_manager).base_gravity as int,
            ))
        }),
{
    if now_ms < gravity_manager.last_gravity_update || now_ms - gravity_manager.last_gravity_update
        < gravity_manager.update_interval {
        return None;
    }
    gravity_manager.last_gravity_update = now_ms;

    let (dx, dy) = tilt_input.get_gravity_direction();
    proof {
        assert(dx * gravity_manager.base_gravity <= 1500 * 1_000_000 && dx
            * gravity_manager.base_gravity >= -1500 * 1_000_000) by (nonlinear_arith)
            requires
                -1500 <= dx <= 1500,
                0 <= gravity_manager.base_gravity <= 1_000_000,
        ;
        assert(dy * gravity_manager.base_gravity <= 1500 * 1_000_000 && dy
            * gravity_manager.base_gravity >= -1500 * 1_000_000) by (nonlinear_arith)
            requires
                -1500 <= dy <= 1500,
                0 <= gravity_manager.base_gravity <= 1_000_000,
        ;
    }
    Some((dx * gravity_manager.base_gravity, dy * gravity_manager.base_gravity))
}

} // verus!
