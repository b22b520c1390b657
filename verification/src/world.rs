//! The world and its per-frame orchestration.
//!
//! A world owns the fixture set, at most one controlled entity, and the
//! configured deactivation threshold.  Each frame runs the passes in a fixed
//! order: the proximity detector and the collision resolver observe the
//! positions left by the previous frame, the movement integrator then
//! produces the new pose, and the activation/decay state machine runs last
//! so that an activation edge raised this frame already shows in this
//! frame's brightness.

use vstd::prelude::*;

verus! {

use crate::components::{ConfigError, ControlledEntity, Fixture, MovablePerson, PlayerInput, Pose};
use crate::fixed::{Vector3, MAX_ABS_DIR, MAX_ABS_FORCE, MAX_ABS_POS, MAX_ABS_SPEED, MAX_DT,
    SCALE};
use crate::fixtures::{brightness_spec, detect_edge_spec, fixture_step_spec, light_up_activated,
    make_close_activated, MAX_DEACTIVATION};
use crate::person::{collision_detection, control_person, force_decay_comp_spec, move_person,
    position_after_comp_spec, resolve_collisions_spec, speed_after_input_spec, speed_decay_spec};

/// What one frame hands back to the render-feedback collaborators: the
/// brightness each fixture shows this frame, and the configuration
/// condition, if any, that made the frame skip its entity passes.
#[derive(Debug)]
pub struct FrameOutput {
    pub levels: Vec<i64>,
    pub error: Option<ConfigError>,
}

/// The controlled entity after one whole frame: the collision resolver may
/// replace its opposing force, speed control and turning apply the player's
/// intent, the integrator moves the position by the frame's travel plus the
/// force, and speed and force then decay.
pub open spec fn entity_frame_spec(
    entity: ControlledEntity,
    fixtures: Seq<Fixture>,
    input: PlayerInput,
    turn_cos: i64,
    turn_sin: i64,
    dt: i64,
) -> ControlledEntity {
    let collided = match resolve_collisions_spec(
        fixtures,
        entity.pose.position,
        entity.movable.forward_speed,
        dt,
    ) {
        Some(force) => force,
        None => entity.movable.opposing_force,
    };
    let speed = speed_after_input_spec(entity.movable.forward_speed, input, dt) as i64;
    let forward = entity.pose.forward.rotate_y_spec(turn_cos, turn_sin);
    let position = Vector3 {
        x: position_after_comp_spec(
            entity.pose.position.x,
            forward.x,
            speed,
            collided.x,
            dt,
        ) as i64,
        y: position_after_comp_spec(
            entity.pose.position.y,
            forward.y,
            speed,
            collided.y,
            dt,
        ) as i64,
        z: position_after_comp_spec(
            entity.pose.position.z,
            forward.z,
            speed,
            collided.z,
            dt,
        ) as i64,
    };
    ControlledEntity {
        pose: Pose { position, forward },
        movable: MovablePerson {
            forward_speed: speed_decay_spec(speed, dt) as i64,
            opposing_force: Vector3 {
                x: force_decay_comp_spec(collided.x, dt) as i64,
                y: force_decay_comp_spec(collided.y, dt) as i64,
                z: force_decay_comp_spec(collided.z, dt) as i64,
            },
        },
    }
}

/// The whole simulated scene: at most one controlled entity, the fixtures,
/// and the configured time an activated fixture takes to switch itself off.
pub struct World {
    pub entity: Option<ControlledEntity>,
    pub fixtures: Vec<Fixture>,
    pub deactivation_time: i64,
}

impl World {
    /// Every value in the ranges the frame arithmetic needs: a positive
    /// deactivation threshold, a well-formed entity if one is present, and
    /// well-formed fixtures.
    pub open spec fn wf(self) -> bool {
        &&& 0 < self.deactivation_time <= MAX_DEACTIVATION
        &&& match self.entity {
            Some(entity) => entity.wf(),
            None => true,
        }
        &&& forall|i: int|
            0 <= i < self.fixtures@.len() ==> (#[trigger] self.fixtures@[i]).wf(
                self.deactivation_time,
            )
    }

    /// Assemble a world.  Offering more than one entity for the controlled
    /// role is refused outright; offering none builds a world whose frames
    /// report the entity as missing until one is configured.
    pub fn new(
        entities: Vec<ControlledEntity>,
        fixtures: Vec<Fixture>,
        deactivation_time: i64,
    ) -> (result: Result<World, ConfigError>)
        ensures
            entities@.len() > 1 ==> result == Err::<World, ConfigError>(
                ConfigError::MultipleControlledEntities,
            ),
            entities@.len() <= 1 ==> (result matches Ok(world) && {
                &&& world.entity == (if entities@.len() == 1 {
                    Some(entities@[0])
                } else {
                    None::<ControlledEntity>
                })
                &&& world.fixtures == fixtures
                &&& world.deactivation_time == deactivation_time
            }),
    {
        if entities.len() > 1 {
            Err(ConfigError::MultipleControlledEntities)
        } else if entities.len() == 1 {
            Ok(World { entity: Some(entities[0]), fixtures, deactivation_time })
        } else {
            Ok(World { entity: None, fixtures, deactivation_time })
        }
    }

    /// Decide `wf` at run time, for callers outside the verified world that
    /// cannot discharge it statically.
    pub fn check_wf(&self) -> (valid: bool)
        ensures
            valid == self.wf(),
    {
        if !(0 < self.deactivation_time && self.deactivation_time <= MAX_DEACTIVATION) {
            return false;
        }
        match self.entity {
            Some(entity) => {
                let pose_ok = -MAX_ABS_POS <= entity.pose.position.x
                    && entity.pose.position.x <= MAX_ABS_POS
                    && -MAX_ABS_POS <= entity.pose.position.y
                    && entity.pose.position.y <= MAX_ABS_POS
                    && -MAX_ABS_POS <= entity.pose.position.z
                    && entity.pose.position.z <= MAX_ABS_POS
                    && -MAX_ABS_DIR <= entity.pose.forward.x
                    && entity.pose.forward.x <= MAX_ABS_DIR
                    && -MAX_ABS_DIR <= entity.pose.forward.y
                    && entity.pose.forward.y <= MAX_ABS_DIR
                    && -MAX_ABS_DIR <= entity.pose.forward.z
                    && entity.pose.forward.z <= MAX_ABS_DIR;
                let movable_ok = -MAX_ABS_SPEED <= entity.movable.forward_speed
                    && entity.movable.forward_speed <= MAX_ABS_SPEED
                    && -MAX_ABS_FORCE <= entity.movable.opposing_force.x
                    && entity.movable.opposing_force.x <= MAX_ABS_FORCE
                    && -MAX_ABS_FORCE <= entity.movable.opposing_force.y
                    && entity.movable.opposing_force.y <= MAX_ABS_FORCE
                    && -MAX_ABS_FORCE <= entity.movable.opposing_force.z
                    && entity.movable.opposing_force.z <= MAX_ABS_FORCE;
                if !(pose_ok && movable_ok) {
                    return false;
                }
            },
            None => {},
        }
        let mut i: usize = 0;
        while i < self.fixtures.len()
            invariant
                i <= self.fixtures@.len(),
                0 < self.deactivation_time <= MAX_DEACTIVATION,
                forall|j: int|
                    0 <= j < i ==> (#[trigger] self.fixtures@[j]).wf(self.deactivation_time),
            decreases self.fixtures@.len() - i,
        {
            let fixture = self.fixtures[i];
            let position_ok = -MAX_ABS_POS <= fixture.position.x
                && fixture.position.x <= MAX_ABS_POS
                && -MAX_ABS_POS <= fixture.position.y
                && fixture.position.y <= MAX_ABS_POS
                && -MAX_ABS_POS <= fixture.position.z
                && fixture.position.z <= MAX_ABS_POS;
            let proximity_ok = 0 <= fixture.proximity.detection_radius
                && fixture.proximity.detection_radius <= MAX_ABS_POS
                && 0 <= fixture.proximity.elapsed_activated
                && (!fixture.proximity.is_activated || fixture.proximity.elapsed_activated
                    < self.deactivation_time);
            if !(position_ok && proximity_ok) {
                return false;
            }
            i = i + 1;
        }
        true
    }

    /// Run one frame: proximity detection, collision resolution, movement,
    /// then activation decay, in that order.  The detector and the resolver
    /// observe the positions from the end of the previous frame.  Without a
    /// controlled entity the entity passes are skipped and reported, while
    /// the fixtures still decay.  `turn_cos` and `turn_sin` are the cosine
    /// and sine of this frame's turn angle (see `planned_turn_angle`); a
    /// caller that never turns passes `SCALE` and `0`.
    pub fn step_frame(
        &mut self,
        input: PlayerInput,
        turn_cos: i64,
        turn_sin: i64,
        dt: i64,
    ) -> (output: FrameOutput)
        requires
            old(self).wf(),
            -SCALE <= turn_cos <= SCALE,
            -SCALE <= turn_sin <= SCALE,
            0 <= dt <= MAX_DT,
        ensures
            final(self).deactivation_time == old(self).deactivation_time,
            final(self).fixtures@.len() == old(self).fixtures@.len(),
            output.levels@.len() == old(self).fixtures@.len(),
            match old(self).entity {
                None => {
                    &&& final(self).entity == None::<ControlledEntity>
                    &&& output.error == Some(ConfigError::MissingControlledEntity)
                    &&& forall|i: int|
                        0 <= i < old(self).fixtures@.len() ==> final(self).fixtures@[i]
                            == fixture_step_spec(
                            old(self).fixtures@[i],
                            false,
                            dt,
                            old(self).deactivation_time,
                        )
                },
                Some(entity) => {
                    &&& output.error == None::<ConfigError>
                    &&& final(self).entity == Some(
                        entity_frame_spec(
                            entity,
                            old(self).fixtures@,
                            input,
                            turn_cos,
                            turn_sin,
                            dt,
                        ),
                    )
                    &&& forall|i: int|
                        0 <= i < old(self).fixtures@.len() ==> final(self).fixtures@[i]
                            == fixture_step_spec(
                            old(self).fixtures@[i],
                            detect_edge_spec(old(self).fixtures@[i], entity.pose.position),
                            dt,
                            old(self).deactivation_time,
                        )
                },
            },
            forall|i: int|
                0 <= i < old(self).fixtures@.len() ==> output.levels@[i] == brightness_spec(
                    (#[trigger] final(self).fixtures@[i]).proximity,
                    old(self).deactivation_time,
                ),
            forall|i: int|
                0 <= i < final(self).fixtures@.len() ==> (#[trigger] final(self).fixtures@[i]).wf(
                    final(self).deactivation_time,
                ),
    {
        match self.entity {
            None => {
                let edges: Vec<bool> = vec![false; self.fixtures.len()];
                let levels = light_up_activated(
                    &mut self.fixtures,
                    &edges,
                    dt,
                    self.deactivation_time,
                );
                FrameOutput { levels, error: Some(ConfigError::MissingControlledEntity) }
            },
            Some(mut entity) => {
                let edges = make_close_activated(&self.fixtures, entity.pose.position);
                collision_detection(&self.fixtures, &entity.pose, &mut entity.movable, dt);
                control_person(
                    &mut entity.pose,
                    &mut entity.movable,
                    input,
                    turn_cos,
                    turn_sin,
                    dt,
                );
                move_person(&mut entity.pose, &mut entity.movable, dt);
                self.entity = Some(entity);
                let levels = light_up_activated(
                    &mut self.fixtures,
                    &edges,
                    dt,
                    self.deactivation_time,
                );
                FrameOutput { levels, error: None }
            },
        }
    }
}

} // verus!
