//! Tests of the landing sequencer: the fixed phase order, the gating of
//! each phase on its telemetry threshold, and the recorded scenarios.

use autopilot::command::Command;
use autopilot::command::SasMode;
use autopilot::config::Config;
use autopilot::sequencer::LandingSequencer;
use autopilot::sequencer::Phase;
use autopilot::sequencer::HINGE_DEPLOY_ANGLE_MILLIDEG;
use autopilot::telemetry::ControlError;
use autopilot::telemetry::TelemetrySample;
use autopilot::vector::Point;
use autopilot::vector::Vector;

fn sample(periapsis_m: i64, surface_m: i64, speed_m_per_s: i64) -> TelemetrySample {
    TelemetrySample {
        periapsis_altitude_mm: periapsis_m * 1000,
        surface_altitude_mm: surface_m * 1000,
        vertical_speed_mm_per_s: speed_m_per_s * 1000,
    }
}

fn activations(trace: &[Command]) -> usize {
    trace.iter().filter(|c| matches!(c, Command::ActivateNextStage)).count()
}

#[test]
fn burn_phase_issues_one_burn_and_one_cutoff() {
    // Periapsis starts at 35 km; successive polls during the burn see
    // 34 km, 32 km, then 29 km, which is at or below the 30 km target.
    let mut seq = LandingSequencer::new(Config::reference());
    let samples = vec![
        sample(35_000, 500_000, 0),
        sample(34_000, 500_000, 0),
        sample(32_000, 500_000, 0),
        sample(29_000, 500_000, 0),
    ];
    let trace = seq.run(&samples);
    assert_eq!(
        trace,
        vec![
            Command::SetSas(true),
            Command::SetSasMode(SasMode::Retrograde),
            Command::SetThrottle(100),
            Command::SetThrottle(0),
            Command::SetSasMode(SasMode::Prograde),
        ]
    );
    // Exactly one burn command, and the cutoff comes only after the
    // crossing sample.
    let burns = trace.iter().filter(|c| matches!(c, Command::SetThrottle(100))).count();
    assert_eq!(burns, 1);
    assert_eq!(seq.phase, Phase::DetachEngine);
}

#[test]
fn parachute_wait_fires_exactly_once_on_the_crossing_sample() {
    // Surface altitude 12 km then 10.5 km against the 11 km threshold.
    let mut seq = LandingSequencer {
        phase: Phase::ParachutesWait,
        config: Config::reference(),
    };
    let first = seq.step(&sample(20_000, 12_000, 0));
    assert!(first.commands.is_empty());
    assert_eq!(seq.phase, Phase::ParachutesWait);
    let second = seq.step(&sample(20_000, 10_500, 0));
    assert_eq!(second.commands, vec![Command::ActivateNextStage]);
    assert_eq!(seq.phase, Phase::SunShieldWait);
}

#[test]
fn descent_exits_on_the_low_sample_with_one_final_activation() {
    // Altitudes 5 m then 1 m: the loop runs once more at 5 m, then exits
    // at 1 m with exactly one final stage activation.
    let mut seq = LandingSequencer {
        phase: Phase::Descend,
        config: Config::reference(),
    };
    let first = seq.step(&sample(20_000, 5, -1));
    assert_eq!(first.commands, vec![Command::SetThrottle(0)]);
    assert!(!first.done);
    assert_eq!(seq.phase, Phase::Descend);
    let second = seq.step(&sample(20_000, 1, -1));
    assert_eq!(second.commands, vec![Command::ActivateNextStage]);
    assert!(second.done);
    assert_eq!(seq.phase, Phase::Done);
    assert_eq!(activations(&second.commands), 1);
}

#[test]
fn low_periapsis_skips_the_burn() {
    // Periapsis already at 29 km, below the 30 km target: no burn command
    // is issued at all, and the sequence settles and moves on.
    let mut seq = LandingSequencer::new(Config::reference());
    let out = seq.step(&sample(29_000, 500_000, 0));
    assert!(out.commands.is_empty());
    assert_eq!(out.settle_secs, 15);
    assert_eq!(seq.phase, Phase::DetachEngine);
}

#[test]
fn settle_pauses_follow_the_burn_and_the_parachute_release() {
    let mut seq = LandingSequencer {
        phase: Phase::BurnWait,
        config: Config::reference(),
    };
    let cutoff = seq.step(&sample(29_500, 500_000, 0));
    assert_eq!(cutoff.settle_secs, 15);

    let mut seq2 = LandingSequencer {
        phase: Phase::ParachutesDetachWait,
        config: Config::reference(),
    };
    let release = seq2.step(&sample(20_000, 1_400, -5));
    assert_eq!(release.settle_secs, 2);
}

#[test]
fn full_landing_issues_the_fixed_command_order() {
    let mut seq = LandingSequencer::new(Config::reference());
    let samples = vec![
        sample(35_000, 500_000, 0),   // start: burn needed
        sample(31_000, 500_000, 0),   // still above the periapsis target
        sample(29_000, 500_000, 0),   // burn ends, settle
        sample(29_000, 200_000, -50), // detach the engine
        sample(29_000, 12_000, -100), // above the parachute threshold
        sample(29_000, 10_500, -90),  // parachutes deploy
        sample(29_000, 3_500, -40),   // above the sun-shield threshold
        sample(29_000, 2_900, -30),   // sun shield off, legs out
        sample(29_000, 1_600, -20),   // above the parachute-release threshold
        sample(29_000, 1_400, -15),   // parachutes off, final stage armed
        sample(29_000, 100, -12),     // falling too fast: full thrust
        sample(29_000, 30, -2),       // inside the envelope: engines off
        sample(29_000, 1, -1),        // touchdown: final activation
    ];
    let trace = seq.run(&samples);
    assert_eq!(
        trace,
        vec![
            Command::SetSas(true),
            Command::SetSasMode(SasMode::Retrograde),
            Command::SetThrottle(100),
            Command::SetThrottle(0),
            Command::SetSasMode(SasMode::Prograde),
            Command::ActivateNextStage,
            Command::SetSasMode(SasMode::StabilityAssist),
            Command::ActivateNextStage,
            Command::ActivateNextStage,
            Command::SetSasMode(SasMode::Radial),
            Command::SetHingeTarget { angle_millideg: HINGE_DEPLOY_ANGLE_MILLIDEG, engaged: true },
            Command::ActivateNextStage,
            Command::ActivateNextStage,
            Command::SetThrottle(1000),
            Command::SetThrottle(0),
            Command::ActivateNextStage,
        ]
    );
    assert_eq!(activations(&trace), 6);
    assert_eq!(seq.phase, Phase::Done);
    // Every throttle level issued is one of off, the burn level, full.
    for c in &trace {
        if let Command::SetThrottle(v) = c {
            assert!(*v == 0 || *v == 100 || *v == 1000);
        }
    }
}

#[test]
fn completed_sequence_issues_nothing_further() {
    let mut seq = LandingSequencer {
        phase: Phase::Done,
        config: Config::reference(),
    };
    let out = seq.step(&sample(0, 0, 0));
    assert!(out.commands.is_empty());
    assert!(out.done);
    assert_eq!(seq.phase, Phase::Done);
}

#[test]
fn waiting_phases_issue_nothing_above_their_thresholds() {
    let cfg = Config::reference();
    let cases = vec![
        (Phase::BurnWait, sample(30_001, 500_000, 0)),
        (Phase::ParachutesWait, sample(20_000, 11_001, 0)),
        (Phase::SunShieldWait, sample(20_000, 3_001, 0)),
        (Phase::ParachutesDetachWait, sample(20_000, 1_501, 0)),
    ];
    for (phase, s) in cases {
        let mut seq = LandingSequencer { phase, config: cfg };
        let out = seq.step(&s);
        assert!(out.commands.is_empty());
        assert_eq!(seq.phase, phase);
    }
}

#[test]
fn error_taxonomy_distinguishes_the_failures() {
    assert_ne!(ControlError::Connection, ControlError::Telemetry);
    assert_ne!(ControlError::Telemetry, ControlError::Command);
    assert_ne!(ControlError::Connection, ControlError::Command);
    assert_eq!(ControlError::Telemetry, ControlError::Telemetry);
}

#[test]
fn vector_keeps_its_end_points() {
    let a = Point { x: 1, y: 2, z: 3 };
    let b = Point { x: 4, y: 6, z: 9 };
    let v = Vector::new(a, b);
    assert_eq!(v.start_point, a);
    assert_eq!(v.end_point, b);
}
