//! The player: what it is and what a flap does to it.

use crate::geometry::Point;
use vstd::prelude::*;

verus! {

/// Upward impulse of one flap.
pub const JUMP_IMPULSE: i64 = 800;

/// What the game knows of the player besides its body.
#[derive(Debug)]
pub struct PlayerComponent {
    pub name: String,
    pub health: i32,
}

/// A push handed to the physics engine: applied once, when it is written.
#[derive(Clone, Copy, Debug, PartialEq, Eq, Structural)]
pub struct ExternalImpulse {
    pub impulse: Point,
    pub torque_impulse: i64,
}

/// The push of one flap: straight up, without spin.
pub open spec fn flap() -> ExternalImpulse {
    ExternalImpulse { impulse: Point { x: 0, y: JUMP_IMPULSE }, torque_impulse: 0 }
}

/// Handles the jump key for one frame. On the frame in which the key was
/// released, the pending impulse is replaced by a flap, whatever it was
/// before; on every other frame it is left as it is. Returns whether the
/// impulse was written.
pub fn move_player(ext_impulse: &mut ExternalImpulse, jump_released: bool) -> (written: bool)
    ensures
        written == jump_released,
        jump_released ==> *final(ext_impulse) == flap(),
        !jump_released ==> *final(ext_impulse) == *old(ext_impulse),
{
    if jump_released {
        ext_impulse.impulse = Point { x: 0, y: JUMP_IMPULSE };
        ext_impulse.torque_impulse = 0;
    }
    jump_released
}

} // verus!
