//! Movement integration, speed and force decay, and collision response.

use glowgrid::{
    collision_detection, control_person, move_person, planned_turn_angle, Fixture,
    MovablePerson, PlayerInput, Pose, Vector3, SCALE,
};

fn forward_only() -> PlayerInput {
    PlayerInput { forward: true, backward: false, turn_left: false, turn_right: false }
}

#[test]
fn new_person_is_at_rest() {
    let person = MovablePerson::new();
    assert_eq!(person.forward_speed, 0);
    assert_eq!(person.opposing_force, Vector3 { x: 0, y: 0, z: 0 });
}

#[test]
fn forward_intent_accelerates() {
    let mut pose = Pose::at_origin();
    let mut person = MovablePerson::new();
    control_person(&mut pose, &mut person, forward_only(), SCALE, 0, 250);
    assert_eq!(person.forward_speed, 250);
    assert_eq!(pose.position, Vector3 { x: 0, y: 0, z: 0 });
}

#[test]
fn backward_intent_can_go_negative() {
    let mut pose = Pose::at_origin();
    let mut person = MovablePerson::new();
    let input = PlayerInput { forward: false, backward: true, turn_left: false, turn_right: false };
    control_person(&mut pose, &mut person, input, SCALE, 0, 400);
    assert_eq!(person.forward_speed, -400);
}

#[test]
fn quarter_turn_left_rotates_forward_vector() {
    // cos 0, sin 1: a quarter turn to the left takes the forward vector
    // from +z to +x.
    let mut pose = Pose::at_origin();
    let mut person = MovablePerson::new();
    control_person(&mut pose, &mut person, PlayerInput::idle(), 0, SCALE, 100);
    assert_eq!(pose.forward, Vector3 { x: SCALE, y: 0, z: 0 });
}

#[test]
fn turn_angle_has_a_floor_of_one_unit() {
    // A stationary avatar still pivots at one unit per second.
    let person = MovablePerson::new();
    let input = PlayerInput { forward: false, backward: false, turn_left: true, turn_right: false };
    assert_eq!(planned_turn_angle(&person, input, 500), 500);
}

#[test]
fn turn_angle_scales_with_speed() {
    let mut person = MovablePerson::new();
    person.forward_speed = 3000;
    let left = PlayerInput { forward: false, backward: false, turn_left: true, turn_right: false };
    assert_eq!(planned_turn_angle(&person, left, 500), 1500);
    let right = PlayerInput { forward: false, backward: false, turn_left: false, turn_right: true };
    assert_eq!(planned_turn_angle(&person, right, 500), -1500);
    let both = PlayerInput { forward: false, backward: false, turn_left: true, turn_right: true };
    assert_eq!(planned_turn_angle(&person, both, 500), 0);
}

#[test]
fn position_integrates_forward_travel() {
    let mut pose = Pose::at_origin();
    let mut person = MovablePerson::new();
    person.forward_speed = 1000;
    move_person(&mut pose, &mut person, 1000);
    assert_eq!(pose.position, Vector3 { x: 0, y: 0, z: 1000 });
}

#[test]
fn speed_decay_exact_value() {
    // No input, speed 1.0, one second at 0.05/s: exactly 0.95 left.
    let mut pose = Pose::at_origin();
    let mut person = MovablePerson::new();
    person.forward_speed = 1000;
    move_person(&mut pose, &mut person, 1000);
    assert_eq!(person.forward_speed, 950);
}

#[test]
fn speed_decay_only_engages_while_positive() {
    let mut pose = Pose::at_origin();
    let mut person = MovablePerson::new();
    person.forward_speed = -300;
    move_person(&mut pose, &mut person, 1000);
    assert_eq!(person.forward_speed, -300);
    person.forward_speed = 0;
    move_person(&mut pose, &mut person, 1000);
    assert_eq!(person.forward_speed, 0);
}

#[test]
fn force_relaxation_exact_value() {
    // Force (1, 0, 1), one second at a quarter per second: (0.75, 0, 0.75),
    // and no component ever changes sign.
    let mut pose = Pose::at_origin();
    let mut person = MovablePerson::new();
    person.opposing_force = Vector3 { x: 1000, y: 0, z: 1000 };
    move_person(&mut pose, &mut person, 1000);
    assert_eq!(person.opposing_force, Vector3 { x: 750, y: 0, z: 750 });
    // The force was applied to the position as a raw displacement.
    assert_eq!(pose.position, Vector3 { x: 1000, y: 0, z: 1000 });
}

#[test]
fn force_relaxation_keeps_sign() {
    let mut pose = Pose::at_origin();
    let mut person = MovablePerson::new();
    person.opposing_force = Vector3 { x: -800, y: 0, z: 4 };
    for _ in 0..50 {
        move_person(&mut pose, &mut person, 1000);
        assert!(person.opposing_force.x <= 0);
        assert!(person.opposing_force.z >= 0);
    }
}

#[test]
fn collision_force_points_away_from_fixture() {
    // Contact at entity_xz = (0.5, 0) against a fixture at the origin with
    // forward speed 2.0 and dt = 0.1: the push is delta * dt * speed =
    // (0.5, 0) * 0.1 * 2.0 = (0.1, 0), pointing away from the fixture.
    let fixtures = vec![Fixture::new(Vector3 { x: 0, y: 0, z: 0 })];
    let mut pose = Pose::at_origin();
    pose.position = Vector3 { x: 500, y: 0, z: 0 };
    let mut person = MovablePerson::new();
    person.forward_speed = 2000;
    collision_detection(&fixtures, &pose, &mut person, 100);
    assert_eq!(person.opposing_force, Vector3 { x: 100, y: 0, z: 0 });
    assert_eq!(person.forward_speed, 2000);
}

#[test]
fn no_collision_outside_the_radius() {
    // Ground-plane distance 1.0 exceeds the collision radius of 0.625: the
    // pending force is left untouched.
    let fixtures = vec![Fixture::new(Vector3 { x: 0, y: 0, z: 0 })];
    let mut pose = Pose::at_origin();
    pose.position = Vector3 { x: 1000, y: 0, z: 0 };
    let mut person = MovablePerson::new();
    person.forward_speed = 2000;
    person.opposing_force = Vector3 { x: 7, y: 8, z: 9 };
    collision_detection(&fixtures, &pose, &mut person, 100);
    assert_eq!(person.opposing_force, Vector3 { x: 7, y: 8, z: 9 });
}

#[test]
fn collision_ignores_height_and_uses_ground_plane() {
    // The avatar's centre is far above the fixture, but on the ground
    // plane they overlap: still a contact.
    let fixtures = vec![Fixture::new(Vector3 { x: 0, y: 0, z: 0 })];
    let mut pose = Pose::at_origin();
    pose.position = Vector3 { x: 300, y: 5000, z: 0 };
    let mut person = MovablePerson::new();
    collision_detection(&fixtures, &pose, &mut person, 1000);
    // Speed 0 is floored to 1.0: push = (0.3, 0) * 1.0 * 1.0 = (0.3, 0).
    assert_eq!(person.opposing_force, Vector3 { x: 300, y: 0, z: 0 });
}

#[test]
fn last_contact_wins() {
    // Two overlapping fixtures in contact in the same frame: the force of
    // the last one scanned replaces the first's.
    let fixtures = vec![
        Fixture::new(Vector3 { x: 100, y: 0, z: 0 }),
        Fixture::new(Vector3 { x: 0, y: 0, z: 200 }),
    ];
    let mut pose = Pose::at_origin();
    let mut person = MovablePerson::new();
    collision_detection(&fixtures, &pose, &mut person, 1000);
    assert_eq!(person.opposing_force, Vector3 { x: 0, y: 0, z: -200 });
}
