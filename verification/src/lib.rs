//! A toy flight-control model in exact fixed-point arithmetic.
//!
//! Once per frame a snapshot of the held control keys is turned into the
//! aircraft's attitude, speed, position and render transform, in that order.
//! Two models share the pipeline: a spatial one, whose attitude is three
//! single-axis rotations composed as heading, then roll, then pitch, and a
//! planar one with a clamped pitch, a facing and a scalar speed.
pub mod attitude;
pub mod direction;
pub mod fleet;
pub mod input;
pub mod kinematics;
pub mod laws;
pub mod pipeline;
pub mod speed;
pub mod state;
pub mod transform;
pub mod units;
