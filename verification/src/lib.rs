//! A fixed-point 2D particle simulation with the bookkeeping for an
//! instanced-draw render pipeline: integration under gravity with damped
//! boundary bounces, projection of particle state into per-instance render
//! records, surface-configuration and resize handling, and the per-frame
//! decision rules for acquiring and presenting frames.
//!
//! All simulation quantities are integers in milli-units: one unit is one
//! thousandth of a pixel (for positions), of a pixel per second (for
//! velocities), or of a color channel's full intensity (for colors).

pub mod layout;
pub mod orchestrator;
pub mod particle;
pub mod rng;
pub mod sim;
pub mod surface;
pub mod units;
