//! Positions and body kinds in whole world units.

use vstd::prelude::*;

verus! {

/// A position or a displacement in the plane.
#[derive(Clone, Copy, Debug, PartialEq, Eq, Structural)]
pub struct Point {
    pub x: i64,
    pub y: i64,
}

/// How the physics engine drives a body.
#[derive(Clone, Copy, Debug, PartialEq, Eq, Structural)]
pub enum RigidBody {
    /// Moved by forces, impulses and gravity.
    Dynamic,
    /// Moved only by assigning its position.
    KinematicPositionBased,
}

} // verus!
