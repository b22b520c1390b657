//! Frame-stepped simulation of a small interactive scene: a grid of light
//! fixtures that glow when a player-steered avatar comes near, and the avatar
//! itself, which walks, turns, and bounces off fixtures it collides with.
//!
//! All quantities are fixed-point integers: a scalar `v` stands for the real
//! number `v / SCALE` (positions and speeds in world units, durations in
//! seconds).  This keeps every computation exact and lets each per-frame rule
//! be stated and proved as a contract.  Rendering, windowing, and input-device
//! binding are outside collaborators: they hand the simulation plain values
//! (elapsed frame time, intent flags, the sine and cosine of a turn angle) and
//! read plain values back (positions, brightness levels).

mod components;
mod fixed;
mod fixtures;
mod person;
mod utils;
mod world;

pub use components::{ConfigError, ControlledEntity, Fixture, MovablePerson, PlayerInput, Pose,
    ProximityActivated};
pub use fixed::{Vector3, MAX_ABS_DIR, MAX_ABS_FORCE, MAX_ABS_POS, MAX_ABS_SPEED, MAX_DT, SCALE};
pub use fixtures::{brightness, brightness_spec, detect_edge_spec, fixture_step,
    fixture_step_spec, lemma_activation_edge, lemma_brightness_bounds,
    lemma_brightness_monotone, lemma_deactivation, lemma_deactivation_crossing,
    lemma_idle_stays, lemma_no_retrigger,
    light_up_activated, make_close_activated, run_fixture, total_time, BOX_HEIGHT, BOX_WIDTH,
    DIMMED, LIT, MAX_DEACTIVATION, SPACING};
pub use person::{collision_detection, collision_force_spec, contact_spec, control_person,
    force_decay_comp_spec, lemma_collision_pushes_away, lemma_force_relaxation,
    lemma_speed_decay_monotone, move_person, planned_turn_angle, position_after_comp_spec,
    resolve_collisions_spec, speed_after_input_spec, speed_decay_spec, speed_floor_spec,
    turn_angle_spec, COLLISION_RADIUS, FORCE_DECAY_RATE, SPEED_DECAY_RATE};
pub use utils::{div_trunc, map_range, map_range_spec};
pub use world::{entity_frame_spec, FrameOutput, World};
