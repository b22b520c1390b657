//! Whole-frame orchestration, configuration diagnostics, and grid layout.

use glowgrid::{
    map_range, ConfigError, ControlledEntity, Fixture, PlayerInput, Vector3, World, DIMMED, LIT,
    SCALE,
};

const DEACTIVATION_TIME: i64 = 3000;

#[test]
fn end_to_end_walk_up_to_a_fixture() {
    // The avatar starts at the origin facing +z with speed 1.0; one fixture
    // stands at (0, 0, 2) with detection radius 2.0.  Two one-second
    // frames: the first sees distance 2.0 (no trigger) and moves the avatar
    // one unit closer; the second sees distance 1.0, triggers the fixture,
    // and its brightness that same frame is exactly LIT.
    let mut entity = ControlledEntity::new();
    entity.movable.forward_speed = 1000;
    let fixtures = vec![Fixture::new(Vector3 { x: 0, y: 0, z: 2000 })];
    let mut world = World::new(vec![entity], fixtures, DEACTIVATION_TIME).unwrap();
    assert!(world.check_wf());

    let first = world.step_frame(PlayerInput::idle(), SCALE, 0, 1000);
    assert_eq!(first.error, None);
    assert!(!world.fixtures[0].proximity.is_activated);
    assert_eq!(first.levels, vec![DIMMED]);
    assert_eq!(world.entity.unwrap().pose.position, Vector3 { x: 0, y: 0, z: 1000 });

    let second = world.step_frame(PlayerInput::idle(), SCALE, 0, 1000);
    assert_eq!(second.error, None);
    assert!(world.fixtures[0].proximity.is_activated);
    assert_eq!(world.fixtures[0].proximity.elapsed_activated, 0);
    assert_eq!(second.levels, vec![LIT]);
}

#[test]
fn multiple_entities_refused_at_setup() {
    let result = World::new(
        vec![ControlledEntity::new(), ControlledEntity::new()],
        Vec::new(),
        DEACTIVATION_TIME,
    );
    assert_eq!(result.err(), Some(ConfigError::MultipleControlledEntities));
}

#[test]
fn missing_entity_is_reported_and_fixtures_still_decay() {
    let mut running = Fixture::new(Vector3 { x: 0, y: 0, z: 0 });
    running.proximity.is_activated = true;
    running.proximity.elapsed_activated = 0;
    let mut world = World::new(Vec::new(), vec![running], DEACTIVATION_TIME).unwrap();
    assert!(world.check_wf());
    let output = world.step_frame(PlayerInput::idle(), SCALE, 0, 1000);
    assert_eq!(output.error, Some(ConfigError::MissingControlledEntity));
    // The activated fixture kept counting down without the avatar.
    assert!(world.fixtures[0].proximity.is_activated);
    assert_eq!(world.fixtures[0].proximity.elapsed_activated, 1000);
    assert_eq!(output.levels, vec![(2000 * LIT) / 3000]);
}

#[test]
fn check_wf_refuses_bad_configuration() {
    let world = World::new(Vec::new(), Vec::new(), 0).unwrap();
    assert!(!world.check_wf());
    let ok = World::new(Vec::new(), Vec::new(), DEACTIVATION_TIME).unwrap();
    assert!(ok.check_wf());
}

#[test]
fn collision_pushes_the_avatar_back_through_a_frame() {
    // The avatar overlaps a fixture on the ground plane; the frame injects
    // a push away from it, which moves the avatar that same frame.
    let mut entity = ControlledEntity::new();
    entity.pose.position = Vector3 { x: 400, y: 0, z: 0 };
    let fixtures = vec![Fixture::new(Vector3 { x: 0, y: 0, z: 0 })];
    let mut world = World::new(vec![entity], fixtures, DEACTIVATION_TIME).unwrap();
    let output = world.step_frame(PlayerInput::idle(), SCALE, 0, 100);
    assert_eq!(output.error, None);
    let moved = world.entity.unwrap();
    // Push = (0.4, 0) * 0.1 * 1.0 = (0.04, 0), applied to the position and
    // then relaxed by a fortieth: 40 - 40 * 0.1 * 0.25 = 39.
    assert_eq!(moved.pose.position, Vector3 { x: 440, y: 0, z: 0 });
    assert_eq!(moved.movable.opposing_force, Vector3 { x: 39, y: 0, z: 0 });
}

#[test]
fn grid_positions_from_map_range() {
    // A four-column row two units apart, centred on the origin, as the
    // scene builder lays fixtures out.
    let row_max = 3;
    let half_span = 3000;
    let mut positions = Vec::new();
    for row in 0..4 {
        positions.push(map_range(row, 0, row_max, -half_span, half_span));
    }
    assert_eq!(positions, vec![-3000, -1000, 1000, 3000]);
}

#[test]
fn map_range_truncates_toward_zero() {
    assert_eq!(map_range(1, 0, 3, 0, 1000), 333);
    assert_eq!(map_range(1, 0, 3, 0, -1000), -333);
    // A descending input range mirrors the output.
    assert_eq!(map_range(0, 3, 0, -3000, 3000), 3000);
    assert_eq!(map_range(3, 3, 0, -3000, 3000), -3000);
}
