//! Tests of the threshold-wait primitive.

use autopilot::telemetry::AltitudeMetric;
use autopilot::telemetry::TelemetrySample;
use autopilot::waiter::wait_done;
use autopilot::waiter::wait_until;

fn periapsis_sample(periapsis_altitude_mm: i64) -> TelemetrySample {
    TelemetrySample {
        periapsis_altitude_mm,
        surface_altitude_mm: 500_000_000,
        vertical_speed_mm_per_s: 0,
    }
}

fn surface_sample(surface_altitude_mm: i64) -> TelemetrySample {
    TelemetrySample {
        periapsis_altitude_mm: 500_000_000,
        surface_altitude_mm,
        vertical_speed_mm_per_s: 0,
    }
}

#[test]
fn wait_is_over_at_or_below_the_threshold() {
    let at = periapsis_sample(30_000_000);
    let below = periapsis_sample(29_999_999);
    let above = periapsis_sample(30_000_001);
    assert!(wait_done(&at, AltitudeMetric::Periapsis, 30_000_000));
    assert!(wait_done(&below, AltitudeMetric::Periapsis, 30_000_000));
    assert!(!wait_done(&above, AltitudeMetric::Periapsis, 30_000_000));
}

#[test]
fn wait_observes_the_selected_metric_only() {
    // The surface altitude is far below the threshold; a periapsis wait
    // must ignore it.
    let s = surface_sample(1_000);
    assert!(!wait_done(&s, AltitudeMetric::Periapsis, 30_000_000));
    assert!(wait_done(&s, AltitudeMetric::Surface, 30_000_000));
}

#[test]
fn wait_returns_on_the_first_crossing_sample() {
    let samples = vec![
        periapsis_sample(34_000_000),
        periapsis_sample(32_000_000),
        periapsis_sample(29_000_000),
        periapsis_sample(28_000_000),
    ];
    assert_eq!(wait_until(&samples, AltitudeMetric::Periapsis, 30_000_000), Some(2));
}

#[test]
fn wait_blocks_while_every_sample_is_above_the_threshold() {
    let samples = vec![periapsis_sample(40_000_000), periapsis_sample(35_000_000)];
    assert_eq!(wait_until(&samples, AltitudeMetric::Periapsis, 30_000_000), None);
}

#[test]
fn wait_over_no_samples_blocks() {
    let samples: Vec<TelemetrySample> = Vec::new();
    assert_eq!(wait_until(&samples, AltitudeMetric::Surface, 11_000_000), None);
}

#[test]
fn wait_returns_at_once_when_already_below() {
    let samples = vec![surface_sample(10_000_000), surface_sample(9_000_000)];
    assert_eq!(wait_until(&samples, AltitudeMetric::Surface, 11_000_000), Some(0));
}

#[test]
fn sample_metric_selects_the_field() {
    let s = TelemetrySample {
        periapsis_altitude_mm: 7,
        surface_altitude_mm: 9,
        vertical_speed_mm_per_s: -4,
    };
    assert_eq!(s.metric(AltitudeMetric::Periapsis), 7);
    assert_eq!(s.metric(AltitudeMetric::Surface), 9);
}
