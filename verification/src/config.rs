//! Configuration of the landing sequence: the burn throttle level, the
//! altitude and speed thresholds that gate each phase, and the two settle
//! pauses. The reference values reproduce the fixed constants of the
//! original mission profile.

use vstd::prelude::*;

verus! {

/// Full thrust, in thousandths. Throttle settings are fractions of this.
pub const FULL_THROTTLE_PERMILLE: u32 = 1000;

/// All thresholds and levels that the landing sequence compares telemetry
/// against. Altitudes are in millimetres, speeds in millimetres per second,
/// throttle in thousandths of full thrust, pauses in whole seconds.
#[derive(Clone, Copy, Debug, PartialEq, Eq, Structural)]
pub struct Config {
    /// Throttle level held during the periapsis-lowering burn.
    pub burn_throttle_permille: u32,
    /// The burn ends once the periapsis altitude is at or below this.
    pub min_periapsis_altitude_mm: i64,
    /// Parachutes are deployed once the surface altitude is at or below this.
    pub parachutes_deploy_altitude_mm: i64,
    /// The sun shield is detached once the surface altitude is at or below this.
    pub sun_shield_detach_altitude_mm: i64,
    /// Parachutes are detached once the surface altitude is at or below this.
    pub parachutes_detach_altitude_mm: i64,
    /// Steepest descent speed allowed while still well above the ground
    /// (speeds are negative while descending).
    pub landing_speed_mm_per_s: i64,
    /// Steepest descent speed allowed close to the ground.
    pub final_landing_speed_mm_per_s: i64,
    /// Pause after the periapsis-lowering burn, to let the orbit settle.
    pub settle_after_burn_secs: u64,
    /// Pause after the parachutes are detached, before the powered descent.
    pub settle_before_descent_secs: u64,
}

impl Config {
    /// A configuration is well formed when the burn throttle is a valid
    /// fraction of full thrust.
    pub open spec fn wf(self) -> bool {
        self.burn_throttle_permille <= FULL_THROTTLE_PERMILLE
    }

    /// The reference mission profile: a 10% burn down to a 30 km periapsis,
    /// parachutes at 11 km, sun shield at 3 km, parachute release at 1.5 km,
    /// a -10 m/s speed envelope loosened to -3 m/s near the ground, and
    /// settle pauses of 15 s and 2 s.
    pub open spec fn reference_spec() -> Config {
        Config {
            burn_throttle_permille: 100,
            min_periapsis_altitude_mm: 30_000_000,
            parachutes_deploy_altitude_mm: 11_000_000,
            sun_shield_detach_altitude_mm: 3_000_000,
            parachutes_detach_altitude_mm: 1_500_000,
            landing_speed_mm_per_s: -10_000i64,
            final_landing_speed_mm_per_s: -3_000i64,
            settle_after_burn_secs: 15,
            settle_before_descent_secs: 2,
        }
    }

    /// Builds the reference mission profile.
    pub fn reference() -> (c: Config)
        ensures
            c == Config::reference_spec(),
            c.wf(),
    {
        Config {
            burn_throttle_permille: 100,
            min_periapsis_altitude_mm: 30_000_000,
            parachutes_deploy_altitude_mm: 11_000_000,
            sun_shield_detach_altitude_mm: 3_000_000,
            parachutes_detach_altitude_mm: 1_500_000,
            landing_speed_mm_per_s: -10_000i64,
            final_landing_speed_mm_per_s: -3_000i64,
            settle_after_burn_secs: 15,
            settle_before_descent_secs: 2,
        }
    }
}

} // verus!
