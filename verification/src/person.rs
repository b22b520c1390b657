//! The movement integrator and the collision resolver for the single
//! player-steered avatar.
//!
//! Each frame the integrator applies the player's intent to the forward
//! speed, turns the forward direction, moves the position by the frame's
//! displacement plus any pending opposing force, and then lets both the
//! speed and the force decay.  The resolver scans the fixtures on the ground
//! plane and, on contact, replaces the opposing force with a push directed
//! away from the fixture, scaled by the frame time and the current speed.

use vstd::prelude::*;

verus! {

use crate::components::{Fixture, MovablePerson, PlayerInput, Pose};
use crate::fixed::{fx_mul, fx_mul_spec, lemma_fx_mul_bound, lemma_sq_bound, lemma_sq_within,
    lemma_tdiv_bound, lemma_tdiv_exact, lemma_tdiv_ordered, lemma_tdiv_sign, sq, Vector3,
    MAX_ABS_DIR, MAX_ABS_FORCE, MAX_ABS_POS, MAX_ABS_SPEED, MAX_DT, SCALE};

/// How close, on the ground plane, the avatar's centre may come to a
/// fixture's centre before they are in contact (1.25 times the fixture box
/// width of 0.5 units).
pub const COLLISION_RADIUS: i64 = 625;

/// Per-second passive decay of a positive forward speed (0.05 units/s each
/// second).
pub const SPEED_DECAY_RATE: i64 = 50;

/// Per-second exponential relaxation rate of the opposing force (a quarter
/// of the force each second).
pub const FORCE_DECAY_RATE: i64 = 250;

/// The forward speed after one frame of player intent: forward intent adds
/// the frame time, backward intent subtracts it, neither clamps.
pub open spec fn speed_after_input_spec(speed: i64, input: PlayerInput, dt: i64) -> int {
    speed + (if input.forward {
        dt as int
    } else {
        0
    }) - (if input.backward {
        dt as int
    } else {
        0
    })
}

/// The larger of a speed and one unit: turning and collision push-back scale
/// with the forward speed but never drop below the rate a stationary avatar
/// gets.
pub open spec fn speed_floor_spec(speed: int) -> int {
    if speed > SCALE {
        speed
    } else {
        SCALE as int
    }
}

/// The signed turn angle of one frame: the frame time times the
/// (floored) forward speed after this frame's intent, positive for a left
/// turn, negative for a right turn, zero when both or neither flag is held.
pub open spec fn turn_angle_spec(speed: i64, input: PlayerInput, dt: i64) -> int {
    let rate = fx_mul_spec(dt as int, speed_floor_spec(speed_after_input_spec(speed, input, dt)));
    (if input.turn_left {
        rate
    } else {
        0
    }) - (if input.turn_right {
        rate
    } else {
        0
    })
}

/// The forward speed after one frame of passive decay: a strictly positive
/// speed loses `SPEED_DECAY_RATE` per second; a zero or negative speed is
/// left alone, so the decay rule itself never oscillates around zero.
pub open spec fn speed_decay_spec(speed: i64, dt: i64) -> int {
    if speed > 0 {
        speed - fx_mul_spec(dt as int, SPEED_DECAY_RATE as int)
    } else {
        speed as int
    }
}

/// One component of the opposing force after one frame of exponential
/// relaxation: the force loses a quarter of itself per second.
pub open spec fn force_decay_comp_spec(force: i64, dt: i64) -> int {
    force - fx_mul_spec(force as int, fx_mul_spec(dt as int, FORCE_DECAY_RATE as int))
}

/// One component of the avatar's position after the frame's movement: the
/// forward direction component scaled by the frame's travel, plus the
/// pending opposing force, which is already a per-frame displacement and is
/// added as it stands.
pub open spec fn position_after_comp_spec(
    position: i64,
    forward: i64,
    speed: i64,
    force: i64,
    dt: i64,
) -> int {
    position + fx_mul_spec(forward as int, fx_mul_spec(speed as int, dt as int)) + force
}

/// Whether the avatar at `position` is in contact with `fixture` on the
/// ground plane.
pub open spec fn contact_spec(fixture: Fixture, position: Vector3) -> bool {
    position.dist2_xz(fixture.position) < sq(COLLISION_RADIUS as int)
}

/// The opposing force a contact with `fixture` injects: the ground-plane
/// displacement from the fixture to the avatar, scaled by the frame time
/// and by the (floored) forward speed.
pub open spec fn collision_force_spec(
    fixture: Fixture,
    position: Vector3,
    speed: i64,
    dt: i64,
) -> Vector3 {
    let dx = position.x - fixture.position.x;
    let dz = position.z - fixture.position.z;
    let floored = speed_floor_spec(speed as int);
    Vector3 {
        x: fx_mul_spec(fx_mul_spec(dx, dt as int), floored) as i64,
        y: 0,
        z: fx_mul_spec(fx_mul_spec(dz, dt as int), floored) as i64,
    }
}

/// The outcome of scanning the fixtures in order for contact: the force of
/// the last fixture in contact, if any.  Later contacts replace earlier
/// ones; the force is never accumulated across fixtures.
pub open spec fn resolve_collisions_spec(
    fixtures: Seq<Fixture>,
    position: Vector3,
    speed: i64,
    dt: i64,
) -> Option<Vector3>
    decreases fixtures.len(),
{
    if fixtures.len() == 0 {
        None
    } else if contact_spec(fixtures.last(), position) {
        Some(collision_force_spec(fixtures.last(), position, speed, dt))
    } else {
        resolve_collisions_spec(fixtures.drop_last(), position, speed, dt)
    }
}

/// Speed control and turning: apply the frame's player intent to the
/// forward speed and turn the forward direction by the angle whose cosine
/// and sine the caller supplies.  The caller obtains that angle from
/// `planned_turn_angle`; trigonometry itself lives outside the simulation.
/// The position and the opposing force are untouched.
pub fn control_person(
    pose: &mut Pose,
    person: &mut MovablePerson,
    input: PlayerInput,
    turn_cos: i64,
    turn_sin: i64,
    dt: i64,
)
    requires
        old(pose).wf(),
        old(person).wf(),
        -SCALE <= turn_cos <= SCALE,
        -SCALE <= turn_sin <= SCALE,
        0 <= dt <= MAX_DT,
    ensures
        final(person).forward_speed == speed_after_input_spec(
            old(person).forward_speed,
            input,
            dt,
        ),
        final(person).opposing_force == old(person).opposing_force,
        final(pose).position == old(pose).position,
        final(pose).forward == old(pose).forward.rotate_y_spec(turn_cos, turn_sin),
        -(MAX_ABS_SPEED + MAX_DT) <= final(person).forward_speed <= MAX_ABS_SPEED + MAX_DT,
        -2 * MAX_ABS_DIR <= final(pose).forward.x <= 2 * MAX_ABS_DIR,
        -2 * MAX_ABS_DIR <= final(pose).forward.z <= 2 * MAX_ABS_DIR,
        final(pose).forward.y == old(pose).forward.y,
{
    if input.forward {
        person.forward_speed = person.forward_speed + dt;
    }
    if input.backward {
        person.forward_speed = person.forward_speed - dt;
    }
    pose.forward = pose.forward.rotate_y(turn_cos, turn_sin);
}

/// The signed turn angle the avatar will take this frame under `input`, in
/// fixed-point radians: frame time times the floored post-intent speed,
/// positive turning left.  An outside collaborator takes its sine and
/// cosine and hands them back to `control_person`.
pub fn planned_turn_angle(person: &MovablePerson, input: PlayerInput, dt: i64) -> (angle: i64)
    requires
        person.wf(),
        0 <= dt <= MAX_DT,
    ensures
        angle == turn_angle_spec(person.forward_speed, input, dt),
{
    let mut speed: i64 = person.forward_speed;
    if input.forward {
        speed = speed + dt;
    }
    if input.backward {
        speed = speed - dt;
    }
    let floored: i64 = if speed > SCALE {
        speed
    } else {
        SCALE
    };
    proof {
        lemma_fx_mul_bound(
            dt as int,
            floored as int,
            MAX_DT as int,
            (MAX_ABS_SPEED + MAX_DT) as int,
        );
    }
    let rate: i64 = fx_mul(dt, floored);
    let mut angle: i64 = 0;
    if input.turn_left {
        angle = angle + rate;
    }
    if input.turn_right {
        angle = angle - rate;
    }
    angle
}

/// The movement integrator's second half: move the position by the frame's
/// forward travel plus the pending opposing force, then decay the speed and
/// the force.  The forward direction is read, not changed.
pub fn move_person(pose: &mut Pose, person: &mut MovablePerson, dt: i64)
    requires
        -MAX_ABS_POS <= old(pose).position.x <= MAX_ABS_POS,
        -MAX_ABS_POS <= old(pose).position.y <= MAX_ABS_POS,
        -MAX_ABS_POS <= old(pose).position.z <= MAX_ABS_POS,
        -2 * MAX_ABS_DIR <= old(pose).forward.x <= 2 * MAX_ABS_DIR,
        -2 * MAX_ABS_DIR <= old(pose).forward.y <= 2 * MAX_ABS_DIR,
        -2 * MAX_ABS_DIR <= old(pose).forward.z <= 2 * MAX_ABS_DIR,
        -(MAX_ABS_SPEED + MAX_DT) <= old(person).forward_speed <= MAX_ABS_SPEED + MAX_DT,
        -MAX_ABS_FORCE <= old(person).opposing_force.x <= MAX_ABS_FORCE,
        -MAX_ABS_FORCE <= old(person).opposing_force.y <= MAX_ABS_FORCE,
        -MAX_ABS_FORCE <= old(person).opposing_force.z <= MAX_ABS_FORCE,
        0 <= dt <= MAX_DT,
    ensures
        final(pose).forward == old(pose).forward,
        final(pose).position.x == position_after_comp_spec(
            old(pose).position.x,
            old(pose).forward.x,
            old(person).forward_speed,
            old(person).opposing_force.x,
            dt,
        ),
        final(pose).position.y == position_after_comp_spec(
            old(pose).position.y,
            old(pose).forward.y,
            old(person).forward_speed,
            old(person).opposing_force.y,
            dt,
        ),
        final(pose).position.z == position_after_comp_spec(
            old(pose).position.z,
            old(pose).forward.z,
            old(person).forward_speed,
            old(person).opposing_force.z,
            dt,
        ),
        final(person).forward_speed == speed_decay_spec(old(person).forward_speed, dt),
        final(person).opposing_force.x == force_decay_comp_spec(
            old(person).opposing_force.x,
            dt,
        ),
        final(person).opposing_force.y == force_decay_comp_spec(
            old(person).opposing_force.y,
            dt,
        ),
        final(person).opposing_force.z == force_decay_comp_spec(
            old(person).opposing_force.z,
            dt,
        ),
{
    let ghost travel_spec: int = fx_mul_spec(old(person).forward_speed as int, dt as int);
    proof {
        lemma_fx_mul_bound(
            old(person).forward_speed as int,
            dt as int,
            1_001_000_000,
            1_000_000,
        );
        assert(1_001_000_000 * 1_000_000 / 1000 == 1_001_000_000_000);
        assert(-1_001_000_000_000 <= travel_spec <= 1_001_000_000_000);
        lemma_fx_mul_bound(old(pose).forward.x as int, travel_spec, 4000, 1_001_000_000_000);
        lemma_fx_mul_bound(old(pose).forward.y as int, travel_spec, 4000, 1_001_000_000_000);
        lemma_fx_mul_bound(old(pose).forward.z as int, travel_spec, 4000, 1_001_000_000_000);
        assert(4000 * 1_001_000_000_000 / 1000 == 4_004_000_000_000);
    }
    let travel: i64 = fx_mul(person.forward_speed, dt);
    let displacement = pose.forward.scale_fx(travel);
    pose.position = pose.position.plus(displacement).plus(person.opposing_force);

    let ghost relax_spec: int = fx_mul_spec(dt as int, FORCE_DECAY_RATE as int);
    proof {
        lemma_fx_mul_bound(dt as int, FORCE_DECAY_RATE as int, 1_000_000, 250);
        assert(1_000_000 * 250 / 1000 == 250_000);
        assert(-250_000 <= relax_spec <= 250_000);
        lemma_fx_mul_bound(
            old(person).opposing_force.x as int,
            relax_spec,
            1_000_000_000_000,
            250_000,
        );
        lemma_fx_mul_bound(
            old(person).opposing_force.y as int,
            relax_spec,
            1_000_000_000_000,
            250_000,
        );
        lemma_fx_mul_bound(
            old(person).opposing_force.z as int,
            relax_spec,
            1_000_000_000_000,
            250_000,
        );
        assert(1_000_000_000_000 * 250_000 / 1000 == 250_000_000_000_000);
    }
    let relax: i64 = fx_mul(dt, FORCE_DECAY_RATE);
    let shed = person.opposing_force.scale_fx(relax);
    person.opposing_force = person.opposing_force.minus(shed);

    if person.forward_speed > 0 {
        proof {
            lemma_fx_mul_bound(dt as int, SPEED_DECAY_RATE as int, 1_000_000, 50);
            assert(1_000_000 * 50 / 1000 == 50_000);
        }
        person.forward_speed = person.forward_speed - fx_mul(dt, SPEED_DECAY_RATE);
    }
}

/// The collision resolver: scan every fixture for ground-plane contact with
/// the avatar and, when one is found, replace the avatar's opposing force
/// with a push away from that fixture.  With several simultaneous contacts
/// the last fixture scanned decides.  Without contact the force is left to
/// keep decaying.
pub fn collision_detection(
    fixtures: &Vec<Fixture>,
    pose: &Pose,
    person: &mut MovablePerson,
    dt: i64,
)
    requires
        forall|i: int|
            {
                &&& -MAX_ABS_POS <= (#[trigger] fixtures@[i]).position.x <= MAX_ABS_POS
                &&& -MAX_ABS_POS <= fixtures@[i].position.z <= MAX_ABS_POS
            } || !(0 <= i < fixtures@.len()),
        -MAX_ABS_POS <= pose.position.x <= MAX_ABS_POS,
        -MAX_ABS_POS <= pose.position.z <= MAX_ABS_POS,
        old(person).wf(),
        0 <= dt <= MAX_DT,
    ensures
        final(person).forward_speed == old(person).forward_speed,
        final(person).opposing_force == match resolve_collisions_spec(
            fixtures@,
            pose.position,
            old(person).forward_speed,
            dt,
        ) {
            Some(force) => force,
            None => old(person).opposing_force,
        },
        final(person).wf(),
{
    let mut i: usize = 0;
    while i < fixtures.len()
        invariant
            i <= fixtures@.len(),
            forall|j: int|
                {
                    &&& -MAX_ABS_POS <= (#[trigger] fixtures@[j]).position.x <= MAX_ABS_POS
                    &&& -MAX_ABS_POS <= fixtures@[j].position.z <= MAX_ABS_POS
                } || !(0 <= j < fixtures@.len()),
            -MAX_ABS_POS <= pose.position.x <= MAX_ABS_POS,
            -MAX_ABS_POS <= pose.position.z <= MAX_ABS_POS,
            old(person).wf(),
            0 <= dt <= MAX_DT,
            person.forward_speed == old(person).forward_speed,
            person.opposing_force == match resolve_collisions_spec(
                fixtures@.take(i as int),
                pose.position,
                old(person).forward_speed,
                dt,
            ) {
                Some(force) => force,
                None => old(person).opposing_force,
            },
            person.wf(),
        decreases fixtures@.len() - i,
    {
        let fixture = fixtures[i];
        proof {
            assert(fixtures@.take(i + 1).drop_last() =~= fixtures@.take(i as int));
            assert(fixtures@.take(i + 1).last() == fixtures@[i as int]);
        }
        if pose.position.within_xz(fixture.position, COLLISION_RADIUS) {
            let dx: i64 = pose.position.x - fixture.position.x;
            let dz: i64 = pose.position.z - fixture.position.z;
            proof {
                lemma_sq_bound(pose.position.z - fixture.position.z, 2 * MAX_ABS_POS as int);
                lemma_sq_bound(pose.position.x - fixture.position.x, 2 * MAX_ABS_POS as int);
                lemma_sq_within(dx as int, COLLISION_RADIUS as int);
                lemma_sq_within(dz as int, COLLISION_RADIUS as int);
                lemma_fx_mul_bound(dx as int, dt as int, 625, 1_000_000);
                lemma_fx_mul_bound(dz as int, dt as int, 625, 1_000_000);
                assert(625 * 1_000_000 / 1000 == 625_000);
                lemma_fx_mul_bound(
                    fx_mul_spec(dx as int, dt as int),
                    speed_floor_spec(old(person).forward_speed as int),
                    625_000,
                    1_000_000_000,
                );
                lemma_fx_mul_bound(
                    fx_mul_spec(dz as int, dt as int),
                    speed_floor_spec(old(person).forward_speed as int),
                    625_000,
                    1_000_000_000,
                );
                assert(625_000 * 1_000_000_000 / 1000 == 625_000_000_000);
            }
            let floored: i64 = if person.forward_speed > SCALE {
                person.forward_speed
            } else {
                SCALE
            };
            person.opposing_force = Vector3 {
                x: fx_mul(fx_mul(dx, dt), floored),
                y: 0,
                z: fx_mul(fx_mul(dz, dt), floored),
            };
        }
        i = i + 1;
    }
    proof {
        assert(fixtures@.take(fixtures@.len() as int) =~= fixtures@);
    }
}

/// Passive speed decay engages only while the speed is strictly positive:
/// a zero or negative speed is untouched, a positive speed only shrinks,
/// and it stays non-negative as long as one frame's decay does not exceed
/// the speed itself (a frame short enough that `dt * 0.05 <= speed`).
pub proof fn lemma_speed_decay_monotone(speed: i64, dt: i64)
    requires
        0 <= dt <= MAX_DT,
    ensures
        speed <= 0 ==> speed_decay_spec(speed, dt) == speed,
        speed > 0 ==> speed_decay_spec(speed, dt) <= speed,
        speed > 0 && fx_mul_spec(dt as int, SPEED_DECAY_RATE as int) <= speed ==> 0
            <= speed_decay_spec(speed, dt) <= speed,
{
    lemma_tdiv_sign(dt as int * SPEED_DECAY_RATE, SCALE as int);
    assert(dt as int * SPEED_DECAY_RATE >= 0) by (nonlinear_arith)
        requires
            dt >= 0,
            SPEED_DECAY_RATE >= 0,
    ;
}

/// Force relaxation never flips the sign of a force component: for frames
/// no longer than four seconds (so that `dt * 0.25 <= 1`) a non-negative
/// component stays within `[0, old]` and a non-positive one within
/// `[old, 0]`.
pub proof fn lemma_force_relaxation(force: i64, dt: i64)
    requires
        -MAX_ABS_FORCE <= force <= MAX_ABS_FORCE,
        0 <= dt <= 4 * SCALE,
    ensures
        force >= 0 ==> 0 <= force_decay_comp_spec(force, dt) <= force,
        force <= 0 ==> force <= force_decay_comp_spec(force, dt) <= 0,
{
    let relax = fx_mul_spec(dt as int, FORCE_DECAY_RATE as int);
    assert(0 <= dt as int * FORCE_DECAY_RATE <= 4 * SCALE * FORCE_DECAY_RATE) by (nonlinear_arith)
        requires
            0 <= dt <= 4 * SCALE,
            FORCE_DECAY_RATE == 250,
            SCALE == 1000,
    ;
    lemma_tdiv_bound(dt as int * FORCE_DECAY_RATE, 4 * SCALE * FORCE_DECAY_RATE, SCALE as int);
    lemma_tdiv_sign(dt as int * FORCE_DECAY_RATE, SCALE as int);
    assert(0 <= relax <= SCALE);
    let shed = fx_mul_spec(force as int, relax);
    if force >= 0 {
        assert(0 <= force * relax <= force * SCALE) by (nonlinear_arith)
            requires
                0 <= relax <= SCALE,
                force >= 0,
        ;
        lemma_tdiv_ordered(force * relax, force * SCALE, SCALE as int);
        lemma_tdiv_exact(force as int, SCALE as int);
        lemma_tdiv_sign(force * relax, SCALE as int);
        assert(0 <= shed <= force);
    } else {
        assert(force * SCALE <= force * relax <= 0) by (nonlinear_arith)
            requires
                0 <= relax <= SCALE,
                force < 0,
        ;
        lemma_tdiv_ordered(-(force * relax), -(force * SCALE), SCALE as int);
        assert(-(force * SCALE) == (-force) * SCALE) by (nonlinear_arith);
        lemma_tdiv_exact(-force as int, SCALE as int);
        lemma_tdiv_sign(force * relax, SCALE as int);
        assert(force <= shed <= 0);
    }
}

/// A collision pushes the avatar away from the fixture: each ground-plane
/// component of the injected force carries the sign of the displacement
/// from the fixture to the avatar, and the vertical component is zero.
pub proof fn lemma_collision_pushes_away(
    fixture: Fixture,
    position: Vector3,
    speed: i64,
    dt: i64,
)
    requires
        -MAX_ABS_POS <= position.x <= MAX_ABS_POS,
        -MAX_ABS_POS <= position.z <= MAX_ABS_POS,
        -MAX_ABS_POS <= fixture.position.x <= MAX_ABS_POS,
        -MAX_ABS_POS <= fixture.position.z <= MAX_ABS_POS,
        -MAX_ABS_SPEED <= speed <= MAX_ABS_SPEED,
        contact_spec(fixture, position),
        0 <= dt <= MAX_DT,
    ensures
        position.x - fixture.position.x >= 0 ==> collision_force_spec(
            fixture,
            position,
            speed,
            dt,
        ).x >= 0,
        position.x - fixture.position.x <= 0 ==> collision_force_spec(
            fixture,
            position,
            speed,
            dt,
        ).x <= 0,
        position.z - fixture.position.z >= 0 ==> collision_force_spec(
            fixture,
            position,
            speed,
            dt,
        ).z >= 0,
        position.z - fixture.position.z <= 0 ==> collision_force_spec(
            fixture,
            position,
            speed,
            dt,
        ).z <= 0,
        collision_force_spec(fixture, position, speed, dt).y == 0,
{
    let dx = position.x - fixture.position.x;
    let dz = position.z - fixture.position.z;
    let floored = speed_floor_spec(speed as int);
    assert(floored > 0);
    lemma_sq_bound(dz, 2 * MAX_ABS_POS as int);
    lemma_sq_bound(dx, 2 * MAX_ABS_POS as int);
    lemma_sq_within(dx, COLLISION_RADIUS as int);
    lemma_sq_within(dz, COLLISION_RADIUS as int);
    lemma_fx_mul_bound(dx, dt as int, 625, 1_000_000);
    lemma_fx_mul_bound(dz, dt as int, 625, 1_000_000);
    assert(625 * 1_000_000 / 1000 == 625_000);
    lemma_fx_mul_bound(fx_mul_spec(dx, dt as int), floored, 625_000, 1_000_000_000);
    lemma_fx_mul_bound(fx_mul_spec(dz, dt as int), floored, 625_000, 1_000_000_000);
    assert(625_000 * 1_000_000_000 / 1000 == 625_000_000_000);
    lemma_tdiv_sign(dx * dt, SCALE as int);
    lemma_tdiv_sign(dz * dt, SCALE as int);
    assert(dx >= 0 ==> dx * dt >= 0) by (nonlinear_arith)
        requires
            dt >= 0,
    ;
    assert(dx <= 0 ==> dx * dt <= 0) by (nonlinear_arith)
        requires
            dt >= 0,
    ;
    assert(dz >= 0 ==> dz * dt >= 0) by (nonlinear_arith)
        requires
            dt >= 0,
    ;
    assert(dz <= 0 ==> dz * dt <= 0) by (nonlinear_arith)
        requires
            dt >= 0,
    ;
    lemma_tdiv_sign(fx_mul_spec(dx, dt as int) * floored, SCALE as int);
    lemma_tdiv_sign(fx_mul_spec(dz, dt as int) * floored, SCALE as int);
    assert(fx_mul_spec(dx, dt as int) >= 0 ==> fx_mul_spec(dx, dt as int) * floored >= 0)
        by (nonlinear_arith)
        requires
            floored > 0,
    ;
    assert(fx_mul_spec(dx, dt as int) <= 0 ==> fx_mul_spec(dx, dt as int) * floored <= 0)
        by (nonlinear_arith)
        requires
            floored > 0,
    ;
    assert(fx_mul_spec(dz, dt as int) >= 0 ==> fx_mul_spec(dz, dt as int) * floored >= 0)
        by (nonlinear_arith)
        requires
            floored > 0,
    ;
    assert(fx_mul_spec(dz, dt as int) <= 0 ==> fx_mul_spec(dz, dt as int) * floored <= 0)
        by (nonlinear_arith)
        requires
            floored > 0,
    ;
}

} // verus!
