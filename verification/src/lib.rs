//! Verified control core for an unattended descent-and-landing maneuver.
//!
//! The library is the decision-making half of a landing autopilot: a fixed,
//! ordered sequence of phases (lower the periapsis, detach the engine, deploy
//! and later detach parachutes, detach the sun shield, then a closed-loop
//! slow descent), each gated on telemetry thresholds. An unverified outer
//! loop polls live telemetry, hands each fresh sample to the sequencer, and
//! performs the commands the sequencer returns.
//!
//! All physical quantities are carried as fixed-point integers so that every
//! decision is verified exactly: altitudes in millimetres, vertical speeds in
//! millimetres per second, throttle settings in thousandths of full thrust,
//! and hinge angles in millidegrees.

pub mod command;
pub mod config;
pub mod regulator;
pub mod sequencer;
pub mod telemetry;
pub mod vector;
pub mod waiter;
