//! The blocking wait primitive: poll a chosen altitude metric until it
//! crosses a threshold from above. The verified part is the per-sample
//! decision and its replay over a recorded run of samples; the live loop
//! around it (read, decide, repeat) is a busy poll with no pause and no
//! timeout, preserved deliberately, and run outside the library.

use vstd::prelude::*;

use crate::telemetry::AltitudeMetric;
use crate::telemetry::TelemetrySample;

verus! {

/// Whether a wait on the given threshold is over once this value was sampled.
pub open spec fn spec_wait_done(value_mm: i64, threshold_mm: i64) -> bool {
    value_mm <= threshold_mm
}

/// Decides whether a wait is over: true exactly when the selected metric of
/// the freshly read sample is at or below the threshold. The polling loop
/// returns the first time this holds, and never while the last observed
/// sample is still above the threshold.
pub fn wait_done(sample: &TelemetrySample, metric: AltitudeMetric, threshold_mm: i64) -> (done:
    bool)
    ensures
        done == spec_wait_done(sample.spec_metric(metric), threshold_mm),
{
    sample.metric(metric) <= threshold_mm
}

/// Replays a wait over a recorded run of samples: returns the index of the
/// poll on which the wait would have returned, or `None` if it would still
/// be blocked after the last sample. The wait returns only once a sampled
/// value is at or below the threshold, and at the first such sample.
pub fn wait_until(samples: &Vec<TelemetrySample>, metric: AltitudeMetric, threshold_mm: i64) -> (r:
    Option<usize>)
    ensures
        match r {
            Some(i) => {
                &&& i < samples@.len()
                &&& spec_wait_done(samples@[i as int].spec_metric(metric), threshold_mm)
                &&& forall|j: int|
                    0 <= j < i ==> !spec_wait_done(
                        samples@[j].spec_metric(metric),
                        threshold_mm,
                    )
            },
            None => forall|j: int|
                0 <= j < samples@.len() ==> !spec_wait_done(
                    samples@[j].spec_metric(metric),
                    threshold_mm,
                ),
        },
{
    let mut i: usize = 0;
    while i < samples.len()
        invariant
            i <= samples@.len(),
            forall|j: int|
                0 <= j < i ==> !spec_wait_done(samples@[j].spec_metric(metric), threshold_mm),
        decreases samples@.len() - i,
    {
        if wait_done(&samples[i], metric, threshold_mm) {
            return Some(i);
        }
        i = i + 1;
    }
    None
}

} // verus!
