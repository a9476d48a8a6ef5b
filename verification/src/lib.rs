//! A first-person camera controller with a clamped pitch.
//!
//! The controller turns one tick's worth of raw input — a set of held
//! movement keys, a cursor-lock flag and an ordered batch of mouse-motion
//! samples — into a new camera orientation and a movement decision.
//! Angles are kept in whole microradians so that every update is exact;
//! the host engine owns the floating-point evaluation (trigonometry,
//! vector normalization and the final write into its transform).

use vstd::prelude::*;

pub mod camera;
pub mod input;
pub mod motion;
pub mod rotation;
pub mod vec3;

verus! {

/// Marker for the one camera entity the controller drives.
#[derive(Clone, Copy, Debug, PartialEq, Eq, Structural)]
pub struct Player;

} // verus!
