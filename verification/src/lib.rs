//! Verified core of a desktop rain-overlay effect.
//!
//! All simulation quantities are fixed-point integers in "milli" units
//! (thousandths): positions and lengths in milli-pixels, fractions such as
//! alpha or intensity as values in `0..=1000`, angles in milli-degrees and
//! time deltas in milliseconds. This keeps the whole particle simulation in
//! exact integer arithmetic, so every step of it can be specified and proved.
//!
//! The layout follows the overlay's moving parts: [`overlay`] holds the
//! protocol-negotiation state machine and the frame loop's decisions,
//! [`particles`] the simulation with its full functional model, [`sim_laws`]
//! the proved laws of that model, [`render_pack`] the per-instance records
//! the instanced renderer uploads, and [`config`], [`presets`], [`rng`],
//! [`trig`] and [`pomodoro`] the supporting pieces.

pub mod config;
pub mod overlay;
pub mod particles;
pub mod pomodoro;
pub mod presets;
pub mod render_pack;
pub mod rng;
pub mod sim_laws;
pub mod trig;
