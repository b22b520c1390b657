//! Activation, decay, and brightness of the light fixtures.

use glowgrid::{
    brightness, fixture_step, light_up_activated, make_close_activated, Fixture,
    ProximityActivated, Vector3, DIMMED, LIT, SCALE,
};

const DEACTIVATION_TIME: i64 = 3000;

fn fixture_at(x: i64, y: i64, z: i64) -> Fixture {
    Fixture::new(Vector3 { x, y, z })
}

#[test]
fn new_fixture_defaults() {
    let proximity = ProximityActivated::new();
    assert!(!proximity.is_activated);
    assert_eq!(proximity.detection_radius, 2 * SCALE);
    assert_eq!(proximity.elapsed_activated, 0);
    let fixture = fixture_at(5, 6, 7);
    assert_eq!(fixture.position, Vector3 { x: 5, y: 6, z: 7 });
    assert!(!fixture.proximity.is_activated);
}

#[test]
fn activation_edge_on_close_approach() {
    // Distance 1.0 < radius 2.0: the idle fixture gets an edge and starts
    // its timer at exactly zero.
    let fixtures = vec![fixture_at(0, 0, 2000)];
    let edges = make_close_activated(&fixtures, Vector3 { x: 0, y: 0, z: 1000 });
    assert_eq!(edges, vec![true]);
    let stepped = fixture_step(fixtures[0], edges[0], 1000, DEACTIVATION_TIME);
    assert!(stepped.proximity.is_activated);
    assert_eq!(stepped.proximity.elapsed_activated, 0);
}

#[test]
fn no_edge_at_exact_radius() {
    // Distance exactly 2.0 is not strictly inside the radius.
    let fixtures = vec![fixture_at(0, 0, 2000)];
    let edges = make_close_activated(&fixtures, Vector3 { x: 0, y: 0, z: 0 });
    assert_eq!(edges, vec![false]);
}

#[test]
fn detection_uses_full_three_dimensional_distance() {
    // Horizontal distance 1.2, vertical 1.8: the full distance exceeds the
    // radius of 2.0 in neither axis alone but in combination it does not:
    // sqrt(1.2^2 + 1.8^2) ~ 2.16 > 2.0, so no edge.
    let fixtures = vec![fixture_at(0, 0, 0)];
    let edges = make_close_activated(&fixtures, Vector3 { x: 1200, y: 1800, z: 0 });
    assert_eq!(edges, vec![false]);
}

#[test]
fn no_retrigger_while_activated() {
    // An activated fixture emits no edge even at distance zero, and its
    // timer keeps running instead of resetting.
    let mut fixture = fixture_at(0, 0, 0);
    fixture.proximity.is_activated = true;
    fixture.proximity.elapsed_activated = 1200;
    let fixtures = vec![fixture];
    let edges = make_close_activated(&fixtures, Vector3 { x: 0, y: 0, z: 0 });
    assert_eq!(edges, vec![false]);
    let stepped = fixture_step(fixtures[0], edges[0], 500, DEACTIVATION_TIME);
    assert!(stepped.proximity.is_activated);
    assert_eq!(stepped.proximity.elapsed_activated, 1700);
}

#[test]
fn deactivation_on_crossing_the_threshold() {
    // Starting activated at zero, three one-second frames sum to exactly
    // the three-second threshold: the fixture switches off on the frame
    // that crosses it, with the timer frozen at the threshold.
    let mut fixture = fixture_at(0, 0, 0);
    fixture.proximity.is_activated = true;
    fixture.proximity.elapsed_activated = 0;
    fixture = fixture_step(fixture, false, 1000, DEACTIVATION_TIME);
    assert!(fixture.proximity.is_activated);
    assert_eq!(fixture.proximity.elapsed_activated, 1000);
    fixture = fixture_step(fixture, false, 1000, DEACTIVATION_TIME);
    assert!(fixture.proximity.is_activated);
    assert_eq!(fixture.proximity.elapsed_activated, 2000);
    fixture = fixture_step(fixture, false, 1000, DEACTIVATION_TIME);
    assert!(!fixture.proximity.is_activated);
    assert_eq!(fixture.proximity.elapsed_activated, 3000);
    // Frozen while idle: later frames leave the fixture exactly as it is.
    let later = fixture_step(fixture, false, 1000, DEACTIVATION_TIME);
    assert_eq!(later.proximity.elapsed_activated, 3000);
    assert!(!later.proximity.is_activated);
}

#[test]
fn brightness_lit_at_activation_instant() {
    let mut proximity = ProximityActivated::new();
    proximity.is_activated = true;
    proximity.elapsed_activated = 0;
    assert_eq!(brightness(proximity, DEACTIVATION_TIME), LIT);
}

#[test]
fn brightness_decays_linearly() {
    let mut proximity = ProximityActivated::new();
    proximity.is_activated = true;
    proximity.elapsed_activated = 1500;
    // Half the threshold gone: half of LIT left.
    assert_eq!(brightness(proximity, DEACTIVATION_TIME), LIT / 2);
    proximity.elapsed_activated = 2999;
    // One millisecond left: nearly dark, but never negative.
    assert_eq!(brightness(proximity, DEACTIVATION_TIME), 1);
}

#[test]
fn brightness_dimmed_while_idle() {
    let mut proximity = ProximityActivated::new();
    proximity.elapsed_activated = 2500;
    assert_eq!(brightness(proximity, DEACTIVATION_TIME), DIMMED);
}

#[test]
fn state_machine_over_a_fixture_set() {
    // One idle fixture with an edge, one activated, one idle without an
    // edge: the edge starts at LIT, the activated one advances, the idle
    // one stays dimmed.
    let mut running = fixture_at(0, 0, 0);
    running.proximity.is_activated = true;
    running.proximity.elapsed_activated = 0;
    let mut fixtures = vec![fixture_at(0, 0, 0), running, fixture_at(9000, 0, 0)];
    let edges = vec![true, false, false];
    let levels = light_up_activated(&mut fixtures, &edges, 1500, DEACTIVATION_TIME);
    assert_eq!(levels, vec![LIT, LIT / 2, DIMMED]);
    assert!(fixtures[0].proximity.is_activated);
    assert_eq!(fixtures[0].proximity.elapsed_activated, 0);
    assert!(fixtures[1].proximity.is_activated);
    assert_eq!(fixtures[1].proximity.elapsed_activated, 1500);
    assert!(!fixtures[2].proximity.is_activated);
}
