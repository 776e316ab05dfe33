//! The landing sequencer: a fixed, ordered, non-reentrant sequence of
//! phases, each gated on a telemetry threshold. The sequencer is a pure
//! state machine: one step takes the current phase and one fresh telemetry
//! sample and decides which actuator commands to issue, how long to settle
//! afterwards, and which phase comes next. The unverified outer loop polls
//! telemetry, performs the commands, and pauses for the settle time, until
//! the sequencer reports touchdown.

use vstd::prelude::*;

use crate::command::activation_count;
use crate::command::lemma_activation_count_add;
use crate::command::Command;
use crate::command::SasMode;
use crate::config::Config;
use crate::config::FULL_THROTTLE_PERMILLE;
use crate::regulator::regulator_throttle;
use crate::regulator::spec_descent_done;
use crate::regulator::spec_regulator_throttle;
use crate::regulator::TOUCHDOWN_ALTITUDE_MM;
use crate::telemetry::TelemetrySample;

verus! {

/// The target angle commanded to every robotic hinge when the landing gear
/// is deployed (90 degrees, in millidegrees).
pub const HINGE_DEPLOY_ANGLE_MILLIDEG: i64 = 90_000;

/// The ordered phases of the landing sequence. The sequencer only ever
/// moves forward through them and never re-enters a completed phase.
#[derive(Clone, Copy, Debug, PartialEq, Eq, Structural)]
pub enum Phase {
    /// Decide whether the periapsis must be lowered at all.
    Start,
    /// Retrograde burn under way; waiting for the periapsis to drop.
    BurnWait,
    /// Detach the spent engine and hold attitude steady.
    DetachEngine,
    /// Waiting to fall low enough to deploy the parachutes.
    ParachutesWait,
    /// Waiting to fall low enough to detach the sun shield.
    SunShieldWait,
    /// Waiting to fall low enough to detach the parachutes.
    ParachutesDetachWait,
    /// Closed-loop powered descent to touchdown.
    Descend,
    /// Touched down; nothing further is issued.
    Done,
}

impl Phase {
    /// Position of this phase in the fixed order.
    pub open spec fn index(self) -> int {
        match self {
            Phase::Start => 0,
            Phase::BurnWait => 1,
            Phase::DetachEngine => 2,
            Phase::ParachutesWait => 3,
            Phase::SunShieldWait => 4,
            Phase::ParachutesDetachWait => 5,
            Phase::Descend => 6,
            Phase::Done => 7,
        }
    }
}

/// How many stage activations the sequencer has issued by the time it
/// enters the given phase: one detaches the engine, one deploys the
/// parachutes, one detaches the sun shield, two detach the parachutes and
/// arm the final stage, and one fires at touchdown.
pub open spec fn activations_before(p: Phase) -> int {
    match p {
        Phase::Start => 0,
        Phase::BurnWait => 0,
        Phase::DetachEngine => 0,
        Phase::ParachutesWait => 1,
        Phase::SunShieldWait => 2,
        Phase::ParachutesDetachWait => 3,
        Phase::Descend => 5,
        Phase::Done => 6,
    }
}

/// What one step of the sequencer decides: the commands to perform, in
/// order; a settle pause to observe after performing them; and whether the
/// sequence is complete.
pub struct StepOutput {
    pub commands: Vec<Command>,
    pub settle_secs: u64,
    pub done: bool,
}

/// The transition function of the landing sequence: for a phase and one
/// fresh telemetry sample, the commands issued (in order), the settle pause
/// that follows them, and the next phase.
pub open spec fn spec_step(cfg: Config, p: Phase, s: TelemetrySample) -> (Seq<Command>, u64, Phase) {
    match p {
        Phase::Start => {
            if s.periapsis_altitude_mm <= cfg.min_periapsis_altitude_mm {
                (Seq::<Command>::empty(), cfg.settle_after_burn_secs, Phase::DetachEngine)
            } else {
                (
                    seq![
                        Command::SetSas(true),
                        Command::SetSasMode(SasMode::Retrograde),
                        Command::SetThrottle(cfg.burn_throttle_permille),
                    ],
                    0u64,
                    Phase::BurnWait,
                )
            }
        },
        Phase::BurnWait => {
            if s.periapsis_altitude_mm > cfg.min_periapsis_altitude_mm {
                (Seq::<Command>::empty(), 0u64, Phase::BurnWait)
            } else {
                (
                    seq![Command::SetThrottle(0u32), Command::SetSasMode(SasMode::Prograde)],
                    cfg.settle_after_burn_secs,
                    Phase::DetachEngine,
                )
            }
        },
        Phase::DetachEngine => (
            seq![Command::ActivateNextStage, Command::SetSasMode(SasMode::StabilityAssist)],
            0u64,
            Phase::ParachutesWait,
        ),
        Phase::ParachutesWait => {
            if s.surface_altitude_mm > cfg.parachutes_deploy_altitude_mm {
                (Seq::<Command>::empty(), 0u64, Phase::ParachutesWait)
            } else {
                (seq![Command::ActivateNextStage], 0u64, Phase::SunShieldWait)
            }
        },
        Phase::SunShieldWait => {
            if s.surface_altitude_mm > cfg.sun_shield_detach_altitude_mm {
                (Seq::<Command>::empty(), 0u64, Phase::SunShieldWait)
            } else {
                (
                    seq![
                        Command::ActivateNextStage,
                        Command::SetSasMode(SasMode::Radial),
                        Command::SetHingeTarget {
                            angle_millideg: HINGE_DEPLOY_ANGLE_MILLIDEG,
                            engaged: true,
                        },
                    ],
                    0u64,
                    Phase::ParachutesDetachWait,
                )
            }
        },
        Phase::ParachutesDetachWait => {
            if s.surface_altitude_mm > cfg.parachutes_detach_altitude_mm {
                (Seq::<Command>::empty(), 0u64, Phase::ParachutesDetachWait)
            } else {
                (
                    seq![Command::ActivateNextStage, Command::ActivateNextStage],
                    cfg.settle_before_descent_secs,
                    Phase::Descend,
                )
            }
        },
        Phase::Descend => {
            if !spec_descent_done(s.surface_altitude_mm) {
                (
                    seq![
                        Command::SetThrottle(
                            spec_regulator_throttle(
                                cfg,
                                s.surface_altitude_mm,
                                s.vertical_speed_mm_per_s,
                            ),
                        ),
                    ],
                    0u64,
                    Phase::Descend,
                )
            } else {
                (seq![Command::ActivateNextStage], 0u64, Phase::Done)
            }
        },
        Phase::Done => (Seq::<Command>::empty(), 0u64, Phase::Done),
    }
}

/// The command trace a run of the sequencer produces over a sequence of
/// telemetry samples, one step per sample, in order.
pub open spec fn spec_run(cfg: Config, p: Phase, samples: Seq<TelemetrySample>) -> Seq<Command>
    decreases samples.len(),
{
    if samples.len() == 0 {
        Seq::<Command>::empty()
    } else {
        spec_step(cfg, p, samples[0]).0 + spec_run(
            cfg,
            spec_step(cfg, p, samples[0]).2,
            samples.drop_first(),
        )
    }
}

/// The phase a run of the sequencer reaches after consuming a sequence of
/// telemetry samples, one step per sample, in order.
pub open spec fn spec_run_phase(cfg: Config, p: Phase, samples: Seq<TelemetrySample>) -> Phase
    decreases samples.len(),
{
    if samples.len() == 0 {
        p
    } else {
        spec_run_phase(cfg, spec_step(cfg, p, samples[0]).2, samples.drop_first())
    }
}

/// Extending a run by one sample appends that step's commands to the trace
/// and advances the reached phase by that step's transition.
pub proof fn lemma_run_snoc(cfg: Config, p: Phase, samples: Seq<TelemetrySample>, x: TelemetrySample)
    ensures
        spec_run(cfg, p, samples.push(x)) == spec_run(cfg, p, samples) + spec_step(
            cfg,
            spec_run_phase(cfg, p, samples),
            x,
        ).0,
        spec_run_phase(cfg, p, samples.push(x)) == spec_step(
            cfg,
            spec_run_phase(cfg, p, samples),
            x,
        ).2,
    decreases samples.len(),
{
    if samples.len() == 0 {
        let p1 = spec_step(cfg, p, x).2;
        assert(samples.push(x)[0] == x);
        assert(samples.push(x).drop_first() =~= samples);
        assert(spec_run(cfg, p, samples) == Seq::<Command>::empty());
        assert(spec_run(cfg, p1, samples.push(x).drop_first()) == Seq::<Command>::empty());
        assert(spec_run_phase(cfg, p, samples) == p);
        assert(spec_run_phase(cfg, p1, samples.push(x).drop_first()) == p1);
        assert(spec_run(cfg, p, samples.push(x)) =~= spec_run(cfg, p, samples) + spec_step(
            cfg,
            spec_run_phase(cfg, p, samples),
            x,
        ).0);
    } else {
        assert(samples.push(x)[0] == samples[0]);
        assert(samples.push(x).drop_first() =~= samples.drop_first().push(x));
        lemma_run_snoc(cfg, spec_step(cfg, p, samples[0]).2, samples.drop_first(), x);
        assert(spec_run(cfg, p, samples.push(x)) =~= spec_run(cfg, p, samples) + spec_step(
            cfg,
            spec_run_phase(cfg, p, samples),
            x,
        ).0);
    }
}

/// The landing sequencer: the current phase of the fixed sequence together
/// with the mission profile it runs.
pub struct LandingSequencer {
    pub phase: Phase,
    pub config: Config,
}

impl LandingSequencer {
    /// A sequencer ready to land with the given profile, at the start of
    /// the sequence.
    pub fn new(config: Config) -> (s: Self)
        ensures
            s.phase == Phase::Start,
            s.config == config,
    {
        LandingSequencer { phase: Phase::Start, config }
    }

    /// Advances the sequence by one poll: decides on the fresh sample
    /// exactly as the transition function does, issues the commands in its
    /// order, and reports completion once the final phase is reached.
    pub fn step(&mut self, sample: &TelemetrySample) -> (out: StepOutput)
        ensures
            ({
                let (cs, settle, p) = spec_step(old(self).config, old(self).phase, *sample);
                &&& out.commands@ == cs
                &&& out.settle_secs == settle
                &&& final(self).phase == p
                &&& final(self).config == old(self).config
                &&& out.done == (p is Done)
            }),
    {
        let ghost spec_cs = spec_step(self.config, self.phase, *sample).0;
        let mut commands: Vec<Command> = Vec::new();
        let mut settle_secs: u64 = 0;
        match self.phase {
            Phase::Start => {
                if sample.periapsis_altitude_mm <= self.config.min_periapsis_altitude_mm {
                    settle_secs = self.config.settle_after_burn_secs;
                    self.phase = Phase::DetachEngine;
                } else {
                    commands.push(Command::SetSas(true));
                    commands.push(Command::SetSasMode(SasMode::Retrograde));
                    commands.push(Command::SetThrottle(self.config.burn_throttle_permille));
                    self.phase = Phase::BurnWait;
                }
            },
            Phase::BurnWait => {
                if sample.periapsis_altitude_mm <= self.config.min_periapsis_altitude_mm {
                    commands.push(Command::SetThrottle(0u32));
                    commands.push(Command::SetSasMode(SasMode::Prograde));
                    settle_secs = self.config.settle_after_burn_secs;
                    self.phase = Phase::DetachEngine;
                }
            },
            Phase::DetachEngine => {
                commands.push(Command::ActivateNextStage);
                commands.push(Command::SetSasMode(SasMode::StabilityAssist));
                self.phase = Phase::ParachutesWait;
            },
            Phase::ParachutesWait => {
                if sample.surface_altitude_mm <= self.config.parachutes_deploy_altitude_mm {
                    commands.push(Command::ActivateNextStage);
                    self.phase = Phase::SunShieldWait;
                }
            },
            Phase::SunShieldWait => {
                if sample.surface_altitude_mm <= self.config.sun_shield_detach_altitude_mm {
                    commands.push(Command::ActivateNextStage);
                    commands.push(Command::SetSasMode(SasMode::Radial));
                    commands.push(
                        Command::SetHingeTarget {
                            angle_millideg: HINGE_DEPLOY_ANGLE_MILLIDEG,
                            engaged: true,
                        },
                    );
                    self.phase = Phase::ParachutesDetachWait;
                }
            },
            Phase::ParachutesDetachWait => {
                if sample.surface_altitude_mm <= self.config.parachutes_detach_altitude_mm {
                    commands.push(Command::ActivateNextStage);
                    commands.push(Command::ActivateNextStage);
                    settle_secs = self.config.settle_before_descent_secs;
                    self.phase = Phase::Descend;
                }
            },
            Phase::Descend => {
                if sample.surface_altitude_mm > TOUCHDOWN_ALTITUDE_MM {
                    let throttle = regulator_throttle(
                        &self.config,
                        sample.surface_altitude_mm,
                        sample.vertical_speed_mm_per_s,
                    );
                    commands.push(Command::SetThrottle(throttle));
                } else {
                    commands.push(Command::ActivateNextStage);
                    self.phase = Phase::Done;
                }
            },
            Phase::Done => {},
        }
        assert(commands@ =~= spec_cs);
        let done = match self.phase {
            Phase::Done => true,
            _ => false,
        };
        StepOutput { commands, settle_secs, done }
    }

    /// Replays the sequencer over a recorded run of telemetry samples, one
    /// step per sample, and returns the full command trace it issues, in
    /// order. The trace and the phase reached are exactly those of the
    /// transition function folded over the samples.
    pub fn run(&mut self, samples: &Vec<TelemetrySample>) -> (trace: Vec<Command>)
        ensures
            trace@ == spec_run(old(self).config, old(self).phase, samples@),
            final(self).phase == spec_run_phase(old(self).config, old(self).phase, samples@),
            final(self).config == old(self).config,
    {
        let ghost cfg = self.config;
        let ghost start_phase = self.phase;
        let mut trace: Vec<Command> = Vec::new();
        let mut i: usize = 0;
        while i < samples.len()
            invariant
                i <= samples@.len(),
                self.config == cfg,
                trace@ == spec_run(cfg, start_phase, samples@.take(i as int)),
                self.phase == spec_run_phase(cfg, start_phase, samples@.take(i as int)),
            decreases samples@.len() - i,
        {
            let mut out = self.step(&samples[i]);
            trace.append(&mut out.commands);
            proof {
                assert(samples@.take(i + 1) =~= samples@.take(i as int).push(samples@[i as int]));
                lemma_run_snoc(cfg, start_phase, samples@.take(i as int), samples@[i as int]);
            }
            i = i + 1;
        }
        proof {
            assert(samples@.take(samples@.len() as int) =~= samples@);
        }
        trace
    }
}

/// Gating law: in a waiting phase whose threshold the fresh sample has not
/// yet crossed, the sequencer issues no command at all and stays in that
/// phase — no later phase's commands can be issued before the wait for that
/// phase has returned.
pub proof fn lemma_wait_gates_commands(cfg: Config, p: Phase, s: TelemetrySample)
    requires
        ({
            ||| p is BurnWait && s.periapsis_altitude_mm > cfg.min_periapsis_altitude_mm
            ||| p is ParachutesWait && s.surface_altitude_mm > cfg.parachutes_deploy_altitude_mm
            ||| p is SunShieldWait && s.surface_altitude_mm > cfg.sun_shield_detach_altitude_mm
            ||| p is ParachutesDetachWait && s.surface_altitude_mm
                > cfg.parachutes_detach_altitude_mm
        }),
    ensures
        spec_step(cfg, p, s).0 == Seq::<Command>::empty(),
        spec_step(cfg, p, s).2 == p,
{
}

/// Idempotent skip: if the periapsis altitude is already at or below the
/// target when the sequence starts, no retrograde-burn command (throttle or
/// attitude change) is issued at all; the sequencer moves straight to the
/// engine-detach phase after the settle pause.
pub proof fn lemma_skip_burn(cfg: Config, s: TelemetrySample)
    requires
        s.periapsis_altitude_mm <= cfg.min_periapsis_altitude_mm,
    ensures
        spec_step(cfg, Phase::Start, s).0 == Seq::<Command>::empty(),
        spec_step(cfg, Phase::Start, s).1 == cfg.settle_after_burn_secs,
        spec_step(cfg, Phase::Start, s).2 == Phase::DetachEngine,
{
}

/// One step of the sequencer never moves backwards through the phase order,
/// and the stage activations it issues are exactly the ones the fixed order
/// assigns between its phase and the next: none are skipped, none reissued.
pub proof fn lemma_step_activations(cfg: Config, p: Phase, s: TelemetrySample)
    ensures
        spec_step(cfg, p, s).2.index() >= p.index(),
        activations_before(spec_step(cfg, p, s).2) == activations_before(p) + activation_count(
            spec_step(cfg, p, s).0,
        ),
{
    reveal_with_fuel(activation_count, 4);
    let cs = spec_step(cfg, p, s).0;
    if cs.len() > 0 {
        assert(cs.drop_first().len() == cs.len() - 1);
        if cs.len() > 1 {
            assert(cs.drop_first()[0] == cs[1]);
            assert(cs.drop_first().drop_first().len() == cs.len() - 2);
            if cs.len() > 2 {
                assert(cs.drop_first().drop_first()[0] == cs[2]);
                assert(cs.drop_first().drop_first().drop_first().len() == cs.len() - 3);
            }
        }
    }
}

/// Phase-ordering law: over any telemetry trace, the sequencer only moves
/// forward through the fixed phase order, and the number of stage
/// activations in the whole command trace is exactly the number the order
/// assigns between the starting phase and the phase reached — activation
/// commands come in the fixed order, gated phase by phase, and an already
/// activated stage is never reissued.
pub proof fn lemma_phase_ordering(cfg: Config, p: Phase, samples: Seq<TelemetrySample>)
    ensures
        spec_run_phase(cfg, p, samples).index() >= p.index(),
        activations_before(spec_run_phase(cfg, p, samples)) == activations_before(p)
            + activation_count(spec_run(cfg, p, samples)),
    decreases samples.len(),
{
    reveal_with_fuel(activation_count, 1);
    if samples.len() == 0 {
    } else {
        let p2 = spec_step(cfg, p, samples[0]).2;
        lemma_step_activations(cfg, p, samples[0]);
        lemma_phase_ordering(cfg, p2, samples.drop_first());
        lemma_activation_count_add(
            spec_step(cfg, p, samples[0]).0,
            spec_run(cfg, p2, samples.drop_first()),
        );
    }
}

/// Whether a command's throttle setting, if it has one, is one of the three
/// levels the sequence uses: engines off, the configured burn level, or
/// full thrust.
pub open spec fn throttle_ok(cfg: Config, c: Command) -> bool {
    c matches Command::SetThrottle(v) ==> v == 0 || v == cfg.burn_throttle_permille || v
        == FULL_THROTTLE_PERMILLE
}

/// Throttle-bounds law, one step: every throttle setting a step issues is
/// engines off, the configured burn level, or full thrust; with a well
/// formed profile every setting is a valid fraction of full thrust.
pub proof fn lemma_step_throttle_bounds(cfg: Config, p: Phase, s: TelemetrySample)
    ensures
        forall|i: int|
            0 <= i < spec_step(cfg, p, s).0.len() ==> throttle_ok(cfg, spec_step(cfg, p, s).0[i]),
{
}

/// Throttle-bounds law, whole trace: over any telemetry trace, every
/// throttle setting the sequencer issues is engines off, the configured
/// burn level, or full thrust — with a well formed profile, always within
/// the valid throttle range.
pub proof fn lemma_run_throttle_bounds(cfg: Config, p: Phase, samples: Seq<TelemetrySample>)
    ensures
        forall|i: int|
            0 <= i < spec_run(cfg, p, samples).len() ==> throttle_ok(cfg, spec_run(cfg, p, samples)[i]),
        cfg.wf() ==> forall|i: int|
            0 <= i < spec_run(cfg, p, samples).len() ==> ((#[trigger] spec_run(cfg, p, samples)[i])
                matches Command::SetThrottle(v) ==> v <= FULL_THROTTLE_PERMILLE),
    decreases samples.len(),
{
    if samples.len() == 0 {
    } else {
        let cs = spec_step(cfg, p, samples[0]).0;
        let rest = spec_run(cfg, spec_step(cfg, p, samples[0]).2, samples.drop_first());
        lemma_step_throttle_bounds(cfg, p, samples[0]);
        lemma_run_throttle_bounds(cfg, spec_step(cfg, p, samples[0]).2, samples.drop_first());
        assert(spec_run(cfg, p, samples) == cs + rest);
        assert forall|i: int| 0 <= i < (cs + rest).len() implies throttle_ok(cfg, (cs + rest)[i]) by {
            if i < cs.len() {
                assert((cs + rest)[i] == cs[i]);
            } else {
                assert((cs + rest)[i] == rest[i - cs.len()]);
            }
        }
    }
}

} // verus!
