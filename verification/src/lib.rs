//! A per-frame pose solver: it turns body, hand and face landmark
//! positions from an external detector into local-space joint rotations
//! for an articulated avatar skeleton, plus eye-gaze rotations and
//! eye/mouth openness scalars. All geometry runs in fixed-point integer
//! arithmetic at a scale of one million ticks per unit, and every
//! function carries an exact contract over that arithmetic.

pub mod fixed;
pub mod landmarks;
pub mod laws;
pub mod result;
pub mod rotation;
pub mod solver;
pub mod vec3;
