use crate::control::{rest, ImpulseCommand, Moment3, Vector3};
use vstd::prelude::*;

verus! {

/// How high above the reference plane an imported body is placed.
pub const SPAWN_HEIGHT: i32 = 50;

/// The rotation about the x axis, in degrees, that turns the up axis of the
/// source asset into that of the world.
pub const SPAWN_PITCH_DEGREES: i32 = -90;

/// Where and how an imported body enters the world.
#[derive(Debug, Clone, Copy, PartialEq, Eq, Structural)]
pub struct SpawnPose {
    /// Height above the reference plane, in length units.
    pub height: i32,
    /// Rotation about the x axis, in degrees.
    pub pitch_degrees: i32,
    /// Whether the physics step moves the body.
    pub dynamic: bool,
    /// Whether the control mapper drives the body.
    pub controllable: bool,
    /// The command the body starts with: none.
    pub impulse: ImpulseCommand,
}

/// The pose that every imported body is spawned with.
pub open spec fn spawn_pose_of() -> SpawnPose {
    SpawnPose {
        height: SPAWN_HEIGHT,
        pitch_degrees: SPAWN_PITCH_DEGREES,
        dynamic: true,
        controllable: true,
        impulse: ImpulseCommand {
            linear: Vector3 { x: 0, y: 0, z: 0 },
            torque: Moment3 { x: 0, y: 0, z: 0 },
        },
    }
}

/// The pose that every imported body is spawned with: at `SPAWN_HEIGHT`,
/// turned by `SPAWN_PITCH_DEGREES` about the x axis, dynamic, controllable
/// and at rest.
pub fn spawn_pose() -> (pose: SpawnPose)
    ensures
        pose == spawn_pose_of(),
{
    SpawnPose {
        height: SPAWN_HEIGHT,
        pitch_degrees: SPAWN_PITCH_DEGREES,
        dynamic: true,
        controllable: true,
        impulse: rest(),
    }
}

} // verus!
