//! The closed-loop descent regulator: a bang-bang (two-setpoint) throttle
//! controller that keeps the descent speed inside an altitude-dependent
//! envelope until touchdown. It has exactly two throttle levels, full and
//! off, and two speed-limit regimes, switched at a fixed altitude.

use vstd::prelude::*;

use crate::config::Config;
use crate::config::FULL_THROTTLE_PERMILLE;

verus! {

/// The powered descent ends once the surface altitude is at or below this
/// (2 m, in millimetres).
pub const TOUCHDOWN_ALTITUDE_MM: i64 = 2_000;

/// Below this surface altitude (50 m, in millimetres) the tighter
/// near-ground speed limit applies.
pub const NEAR_GROUND_ALTITUDE_MM: i64 = 50_000;

/// The steepest descent speed allowed at the given surface altitude:
/// the cruise limit well above the ground, the tighter final limit below
/// the near-ground altitude.
pub open spec fn spec_speed_limit(cfg: Config, surface_altitude_mm: i64) -> i64 {
    if surface_altitude_mm > NEAR_GROUND_ALTITUDE_MM {
        cfg.landing_speed_mm_per_s
    } else {
        cfg.final_landing_speed_mm_per_s
    }
}

/// Selects the speed limit for the given surface altitude.
pub fn speed_limit(cfg: &Config, surface_altitude_mm: i64) -> (limit: i64)
    ensures
        limit == spec_speed_limit(*cfg, surface_altitude_mm),
{
    if surface_altitude_mm > NEAR_GROUND_ALTITUDE_MM {
        cfg.landing_speed_mm_per_s
    } else {
        cfg.final_landing_speed_mm_per_s
    }
}

/// The throttle the regulator commands for one reading: full thrust exactly
/// when the vehicle falls faster than the limit allows (speeds are negative
/// while descending), otherwise engines off.
pub open spec fn spec_regulator_throttle(
    cfg: Config,
    surface_altitude_mm: i64,
    vertical_speed_mm_per_s: i64,
) -> u32 {
    if vertical_speed_mm_per_s < spec_speed_limit(cfg, surface_altitude_mm) {
        FULL_THROTTLE_PERMILLE
    } else {
        0
    }
}

/// Computes the regulator's throttle for one telemetry reading. The result
/// is full thrust exactly when the vertical speed is below the
/// altitude-dependent limit, and zero otherwise: the regulator never
/// commands an intermediate level.
pub fn regulator_throttle(
    cfg: &Config,
    surface_altitude_mm: i64,
    vertical_speed_mm_per_s: i64,
) -> (throttle: u32)
    ensures
        throttle == spec_regulator_throttle(*cfg, surface_altitude_mm, vertical_speed_mm_per_s),
        (throttle == FULL_THROTTLE_PERMILLE) == (vertical_speed_mm_per_s < spec_speed_limit(
            *cfg,
            surface_altitude_mm,
        )),
        throttle == FULL_THROTTLE_PERMILLE || throttle == 0,
{
    let limit = speed_limit(cfg, surface_altitude_mm);
    if vertical_speed_mm_per_s < limit {
        FULL_THROTTLE_PERMILLE
    } else {
        0
    }
}

/// Whether the powered descent is over for the given surface altitude.
pub open spec fn spec_descent_done(surface_altitude_mm: i64) -> bool {
    surface_altitude_mm <= TOUCHDOWN_ALTITUDE_MM
}

/// Decides whether the powered descent is over: true exactly when the
/// surface altitude is at or below the touchdown altitude.
pub fn descent_done(surface_altitude_mm: i64) -> (done: bool)
    ensures
        done == spec_descent_done(surface_altitude_mm),
{
    surface_altitude_mm <= TOUCHDOWN_ALTITUDE_MM
}

/// Bang-bang law of the reference profile: full thrust is commanded exactly
/// when the vertical speed is below the limit, where the limit is -10 m/s
/// above 50 m of surface altitude and -3 m/s at or below it; otherwise the
/// commanded throttle is zero.
pub proof fn lemma_regulator_bang_bang(surface_altitude_mm: i64, vertical_speed_mm_per_s: i64)
    ensures
        ({
            let limit: i64 = if surface_altitude_mm > 50_000 {
                -10_000i64
            } else {
                -3_000i64
            };
            spec_regulator_throttle(
                Config::reference_spec(),
                surface_altitude_mm,
                vertical_speed_mm_per_s,
            ) == if vertical_speed_mm_per_s < limit {
                1000u32
            } else {
                0u32
            }
        }),
{
}

} // verus!
