//! Character animation state machine and frame timing.
//!
//! Converts per-tick movement intent and elapsed time into a deterministic
//! sprite-atlas index and frame-exact footstep triggers.

pub mod animation;
pub mod footstep;
pub mod policy;
