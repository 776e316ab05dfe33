//! Actuator commands. The sequencer only decides; each command is carried
//! out by the unverified outer loop as one synchronous remote write.

use vstd::prelude::*;

verus! {

/// Autopilot orientation lock modes.
#[derive(Clone, Copy, Debug, PartialEq, Eq, Structural)]
pub enum SasMode {
    Prograde,
    Retrograde,
    StabilityAssist,
    Radial,
}

/// One actuator command. Throttle is in thousandths of full thrust; hinge
/// angles are in millidegrees.
#[derive(Clone, Copy, Debug, PartialEq, Eq, Structural)]
pub enum Command {
    /// Set the main throttle.
    SetThrottle(u32),
    /// Enable or disable the attitude-hold autopilot.
    SetSas(bool),
    /// Select the attitude-hold mode.
    SetSasMode(SasMode),
    /// Trigger the next configured hardware-separation/ignition event.
    ActivateNextStage,
    /// Command every robotic hinge to a target angle, engaging or
    /// disengaging its motor.
    SetHingeTarget { angle_millideg: i64, engaged: bool },
}

/// How many stage activations a command sequence holds.
pub open spec fn activation_count(cs: Seq<Command>) -> int
    decreases cs.len(),
{
    if cs.len() == 0 {
        0
    } else {
        (if cs[0] is ActivateNextStage {
            1int
        } else {
            0int
        }) + activation_count(cs.drop_first())
    }
}

/// Stage activations are counted piecewise across concatenation.
pub proof fn lemma_activation_count_add(a: Seq<Command>, b: Seq<Command>)
    ensures
        activation_count(a + b) == activation_count(a) + activation_count(b),
    decreases a.len(),
{
    if a.len() == 0 {
        assert(a + b =~= b);
    } else {
        assert((a + b).drop_first() =~= a.drop_first() + b);
        lemma_activation_count_add(a.drop_first(), b);
    }
}

} // verus!
