//! Telemetry as the sequencer sees it: one fresh sample per poll, never
//! cached, and the taxonomy of remote failures. The unverified outer loop
//! reads the live values over the remote link and converts them to the
//! fixed-point units used here.

use vstd::prelude::*;

verus! {

/// One fresh reading of the vehicle's state. Altitudes are in millimetres,
/// the vertical speed in millimetres per second (negative while descending).
#[derive(Clone, Copy, Debug, PartialEq, Eq, Structural)]
pub struct TelemetrySample {
    /// Lowest altitude of the current orbital path above the surface.
    pub periapsis_altitude_mm: i64,
    /// Current height above the terrain.
    pub surface_altitude_mm: i64,
    /// Vertical speed; negative means descending.
    pub vertical_speed_mm_per_s: i64,
}

/// Selects which telemetry field a wait operation observes.
#[derive(Clone, Copy, Debug, PartialEq, Eq, Structural)]
pub enum AltitudeMetric {
    Periapsis,
    Surface,
}

impl TelemetrySample {
    /// The field of this sample that the given metric selects.
    pub open spec fn spec_metric(self, metric: AltitudeMetric) -> i64 {
        match metric {
            AltitudeMetric::Periapsis => self.periapsis_altitude_mm,
            AltitudeMetric::Surface => self.surface_altitude_mm,
        }
    }

    /// Reads the field of this sample that the given metric selects.
    pub fn metric(&self, metric: AltitudeMetric) -> (v: i64)
        ensures
            v == self.spec_metric(metric),
    {
        match metric {
            AltitudeMetric::Periapsis => self.periapsis_altitude_mm,
            AltitudeMetric::Surface => self.surface_altitude_mm,
        }
    }
}

/// Why a remote operation failed. Every variant is fatal: the sequence
/// aborts on the first failure, with no retry and no attempt to leave the
/// vehicle in a safe state.
#[derive(Clone, Copy, Debug, PartialEq, Eq, Structural)]
pub enum ControlError {
    /// The remote endpoint was unreachable or the handshake failed.
    Connection,
    /// A telemetry read failed or returned an invalid handle.
    Telemetry,
    /// A command write was rejected by the remote side.
    Command,
}

} // verus!
