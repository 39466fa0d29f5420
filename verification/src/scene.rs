//! The opening scene: the spawn timer and the player as the game starts.

use crate::geometry::{Point, RigidBody};
use crate::pipes::PipeSpawnerResource;
use crate::player::{ExternalImpulse, PlayerComponent};
use crate::timer::{RepeatingTimer, NANOS_PER_SECOND};
use vstd::prelude::*;

verus! {

/// Seed of the global random source.
pub const RNG_SEED: u64 = 12345;

/// World units that the physics engine takes for one metre.
pub const PIXELS_PER_METER: i64 = 100;

/// Time between two obstacle pairs, in nanoseconds.
pub const SPAWN_PERIOD_NANOS: u64 = NANOS_PER_SECOND;

/// Radius of the player's disc and of its collider.
pub const PLAYER_RADIUS: i64 = 50;

/// Health that the player starts with.
pub const PLAYER_HEALTH: i32 = 3;

/// Horizontal position at which the player starts; it starts at height zero.
pub const PLAYER_START_X: i64 = -250;

/// Upward speed that the player starts with.
pub const PLAYER_START_SPEED: i64 = 2;

/// Spin that the player starts with, in hundredths of a radian per second.
pub const PLAYER_START_SPIN_HUNDREDTHS: i64 = 20;

/// Multiplier on gravity for the player, in hundredths.
pub const GRAVITY_SCALE_HUNDREDTHS: i64 = 981;

/// Upward impulse that the player starts with.
pub const START_IMPULSE: i64 = 200;

/// Angular impulse that the player starts with.
pub const START_TORQUE_IMPULSE: i64 = 14;

/// Linear and angular velocity of a body. The angular part is counted in
/// hundredths of a radian per second.
#[derive(Clone, Copy, Debug, PartialEq, Eq, Structural)]
pub struct Velocity {
    pub linvel: Point,
    pub angvel_hundredths: i64,
}

/// What the physics engine is told about the player's body.
#[derive(Clone, Copy, Debug, PartialEq, Eq, Structural)]
pub struct PlayerBody {
    pub translation: Point,
    pub radius: i64,
    pub body: RigidBody,
    pub velocity: Velocity,
    /// Multiplier on gravity, in hundredths.
    pub gravity_scale_hundredths: i64,
    /// Whether the engine may put the body to sleep.
    pub sleeping: bool,
    /// Whether continuous collision detection is on.
    pub ccd: bool,
    pub impulse: ExternalImpulse,
}

/// The player as it is created.
#[derive(Debug)]
pub struct Player {
    pub component: PlayerComponent,
    pub body: PlayerBody,
}

/// Everything the game sets up before the first frame.
#[derive(Debug)]
pub struct Scene {
    pub spawner: PipeSpawnerResource,
    pub player: Player,
}

/// The player's body at the start: a dynamic disc left of the centre that is
/// already turning and rising, never sleeps, is checked for collisions
/// continuously and falls under scaled gravity.
pub open spec fn opening_body() -> PlayerBody {
    PlayerBody {
        translation: Point { x: PLAYER_START_X, y: 0 },
        radius: PLAYER_RADIUS,
        body: RigidBody::Dynamic,
        velocity: Velocity {
            linvel: Point { x: 0, y: PLAYER_START_SPEED },
            angvel_hundredths: PLAYER_START_SPIN_HUNDREDTHS,
        },
        gravity_scale_hundredths: GRAVITY_SCALE_HUNDREDTHS,
        sleeping: false,
        ccd: true,
        impulse: ExternalImpulse {
            impulse: Point { x: 0, y: START_IMPULSE },
            torque_impulse: START_TORQUE_IMPULSE,
        },
    }
}

/// Builds the opening scene: a one-second repeating spawn timer with nothing
/// on its clock, and the player.
pub fn add_entities() -> (scene: Scene)
    ensures
        scene.spawner.timer.period() == SPAWN_PERIOD_NANOS,
        scene.spawner.timer.elapsed() == 0,
        !scene.spawner.timer.fired(),
        scene.spawner.timer.completed() == 0,
        scene.player.component.name@ == "Birdy 1"@,
        scene.player.component.health == PLAYER_HEALTH,
        scene.player.body == opening_body(),
{
    let spawner = PipeSpawnerResource { timer: RepeatingTimer::new(SPAWN_PERIOD_NANOS) };
    let body = PlayerBody {
        translation: Point { x: PLAYER_START_X, y: 0 },
        radius: PLAYER_RADIUS,
        body: RigidBody::Dynamic,
        velocity: Velocity {
            linvel: Point { x: 0, y: PLAYER_START_SPEED },
            angvel_hundredths: PLAYER_START_SPIN_HUNDREDTHS,
        },
        gravity_scale_hundredths: GRAVITY_SCALE_HUNDREDTHS,
        sleeping: false,
        ccd: true,
        impulse: ExternalImpulse {
            impulse: Point { x: 0, y: START_IMPULSE },
            torque_impulse: START_TORQUE_IMPULSE,
        },
    };
    let component = PlayerComponent { name: "Birdy 1".to_owned(), health: PLAYER_HEALTH };
    Scene { spawner, player: Player { component, body } }
}

} // verus!
