//! The simulation's data model: the player-steered avatar, the light
//! fixtures, and the per-frame inputs and configuration diagnostics.

use vstd::prelude::*;

verus! {

use crate::fixed::{Vector3, MAX_ABS_DIR, MAX_ABS_FORCE, MAX_ABS_POS, MAX_ABS_SPEED, SCALE};

/// Player intent for one frame: four independent flags.  Forward and backward
/// are not required to be mutually exclusive; the simulation applies both.
#[derive(Clone, Copy, Debug, PartialEq, Eq, Structural)]
pub struct PlayerInput {
    pub forward: bool,
    pub backward: bool,
    pub turn_left: bool,
    pub turn_right: bool,
}

impl PlayerInput {
    /// No key held this frame.
    pub fn idle() -> (input: PlayerInput)
        ensures
            !input.forward,
            !input.backward,
            !input.turn_left,
            !input.turn_right,
    {
        PlayerInput { forward: false, backward: false, turn_left: false, turn_right: false }
    }
}

/// Momentum state of the avatar: a signed forward speed (units per second)
/// and the transient opposing force injected by collisions, which the
/// movement integrator adds to the position once per frame and then decays.
#[derive(Clone, Copy, Debug, PartialEq, Eq, Structural)]
pub struct MovablePerson {
    pub forward_speed: i64,
    pub opposing_force: Vector3,
}

impl MovablePerson {
    /// A person at rest with no pending push-back.
    pub fn new() -> (person: MovablePerson)
        ensures
            person.forward_speed == 0,
            person.opposing_force == (Vector3 { x: 0, y: 0, z: 0 }),
            person.wf(),
    {
        MovablePerson { forward_speed: 0, opposing_force: Vector3 { x: 0, y: 0, z: 0 } }
    }

    /// Speed and force within the ranges the integrator's arithmetic needs.
    pub open spec fn wf(self) -> bool {
        &&& -MAX_ABS_SPEED <= self.forward_speed <= MAX_ABS_SPEED
        &&& -MAX_ABS_FORCE <= self.opposing_force.x <= MAX_ABS_FORCE
        &&& -MAX_ABS_FORCE <= self.opposing_force.y <= MAX_ABS_FORCE
        &&& -MAX_ABS_FORCE <= self.opposing_force.z <= MAX_ABS_FORCE
    }
}

/// Where the avatar stands and the direction it faces: a point in world
/// space and an (approximately unit) forward vector.
#[derive(Clone, Copy, Debug, PartialEq, Eq, Structural)]
pub struct Pose {
    pub position: Vector3,
    pub forward: Vector3,
}

impl Pose {
    /// Standing at the origin, facing along the positive `z` axis.
    pub fn at_origin() -> (pose: Pose)
        ensures
            pose.position == (Vector3 { x: 0, y: 0, z: 0 }),
            pose.forward == (Vector3 { x: 0, y: 0, z: SCALE }),
            pose.wf(),
    {
        Pose {
            position: Vector3 { x: 0, y: 0, z: 0 },
            forward: Vector3 { x: 0, y: 0, z: SCALE },
        }
    }

    /// Coordinates within the ranges the integrator's arithmetic needs.
    pub open spec fn wf(self) -> bool {
        &&& -MAX_ABS_POS <= self.position.x <= MAX_ABS_POS
        &&& -MAX_ABS_POS <= self.position.y <= MAX_ABS_POS
        &&& -MAX_ABS_POS <= self.position.z <= MAX_ABS_POS
        &&& -MAX_ABS_DIR <= self.forward.x <= MAX_ABS_DIR
        &&& -MAX_ABS_DIR <= self.forward.y <= MAX_ABS_DIR
        &&& -MAX_ABS_DIR <= self.forward.z <= MAX_ABS_DIR
    }
}

/// Proximity activation state of one fixture: whether it is lit up, the
/// distance at which the avatar triggers it, and the time accumulated since
/// the most recent activation edge.  The elapsed time is meaningful only
/// while activated; it is frozen on deactivation and re-zeroed on the next
/// activation edge.
#[derive(Clone, Copy, Debug, PartialEq, Eq, Structural)]
pub struct ProximityActivated {
    pub is_activated: bool,
    pub detection_radius: i64,
    pub elapsed_activated: i64,
}

impl ProximityActivated {
    /// A fresh, inactive state with the default detection radius of two
    /// world units.
    pub fn new() -> (proximity: ProximityActivated)
        ensures
            !proximity.is_activated,
            proximity.detection_radius == 2 * SCALE,
            proximity.elapsed_activated == 0,
    {
        ProximityActivated {
            is_activated: false,
            detection_radius: 2 * SCALE,
            elapsed_activated: 0,
        }
    }

    /// The state machine's invariant for a configured deactivation
    /// threshold: the radius and timer are non-negative, and an activated
    /// timer has not yet reached the threshold (reaching it deactivates).
    pub open spec fn wf(self, deactivation_time: i64) -> bool {
        &&& 0 <= self.detection_radius <= MAX_ABS_POS
        &&& 0 <= self.elapsed_activated
        &&& self.is_activated ==> self.elapsed_activated < deactivation_time
    }
}

/// A static world object capable of the activation/decay lighting state:
/// a fixed position and its proximity state.
#[derive(Clone, Copy, Debug, PartialEq, Eq, Structural)]
pub struct Fixture {
    pub position: Vector3,
    pub proximity: ProximityActivated,
}

impl Fixture {
    /// A fresh fixture at `position`.
    pub fn new(position: Vector3) -> (fixture: Fixture)
        ensures
            fixture.position == position,
            !fixture.proximity.is_activated,
            fixture.proximity.detection_radius == 2 * SCALE,
            fixture.proximity.elapsed_activated == 0,
    {
        Fixture { position, proximity: ProximityActivated::new() }
    }

    /// Position in range and proximity state well formed.
    pub open spec fn wf(self, deactivation_time: i64) -> bool {
        &&& -MAX_ABS_POS <= self.position.x <= MAX_ABS_POS
        &&& -MAX_ABS_POS <= self.position.y <= MAX_ABS_POS
        &&& -MAX_ABS_POS <= self.position.z <= MAX_ABS_POS
        &&& self.proximity.wf(deactivation_time)
    }
}

/// The single player-steered avatar: its pose together with its momentum
/// state.  The simulation assumes exactly one of these exists; absence or
/// duplication is a configuration condition, not a crash.
#[derive(Clone, Copy, Debug, PartialEq, Eq, Structural)]
pub struct ControlledEntity {
    pub pose: Pose,
    pub movable: MovablePerson,
}

impl ControlledEntity {
    /// A fresh avatar at the origin, at rest, facing along positive `z`.
    pub fn new() -> (entity: ControlledEntity)
        ensures
            entity.pose == (Pose {
                position: Vector3 { x: 0, y: 0, z: 0 },
                forward: Vector3 { x: 0, y: 0, z: SCALE },
            }),
            entity.movable.forward_speed == 0,
            entity.movable.opposing_force == (Vector3 { x: 0, y: 0, z: 0 }),
            entity.wf(),
    {
        ControlledEntity { pose: Pose::at_origin(), movable: MovablePerson::new() }
    }

    /// Both halves well formed.
    pub open spec fn wf(self) -> bool {
        self.pose.wf() && self.movable.wf()
    }
}

/// Configuration conditions around the "exactly one controlled entity"
/// assumption.  Both are surfaced as values; the simulation never panics on
/// them.
#[derive(Clone, Copy, Debug, PartialEq, Eq, Structural)]
pub enum ConfigError {
    /// No entity satisfies the controlled role; dependent passes are skipped
    /// for the frame.
    MissingControlledEntity,
    /// More than one entity was offered for the controlled role at setup
    /// time; the simulation refuses to pick one.
    MultipleControlledEntities,
}

} // verus!
