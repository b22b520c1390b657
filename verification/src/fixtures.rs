//! The proximity detector and the activation/decay state machine.
//!
//! The detector is stateless: it scans the fixtures against the avatar's
//! position and emits one activation edge per idle fixture that the avatar
//! stands close enough to.  The state machine owns each fixture's activation
//! state: an edge starts the timer at zero, each later frame adds the elapsed
//! time, and reaching the deactivation threshold switches the fixture off.
//! The derived brightness falls linearly from `LIT` at the activation instant
//! toward zero at the threshold, and is `DIMMED` exactly while idle.

use vstd::prelude::*;

verus! {

use vstd::pervasive::VecAdditionalExecFns;
use vstd::arithmetic::div_mod::{lemma_div_is_ordered, lemma_div_pos_is_pos,
    lemma_div_multiples_vanish};
use crate::components::{Fixture, ProximityActivated};
use crate::fixed::{sq, Vector3, MAX_ABS_POS, MAX_DT, SCALE};

/// Brightness of a fixture at the instant it activates.
pub const LIT: i64 = 4 * SCALE;

/// Brightness of an idle fixture (0.1 of a unit).
pub const DIMMED: i64 = 100;

/// Height of a fixture's box shape (1.25 units).
pub const BOX_HEIGHT: i64 = 1250;

/// Width of a fixture's box shape (0.5 units).
pub const BOX_WIDTH: i64 = 500;

/// Centre-to-centre spacing of the fixture grid.
pub const SPACING: i64 = 2 * SCALE;

/// Largest deactivation threshold the state machine accepts (a billion
/// simulated seconds); keeps the brightness arithmetic within `i64`.
pub const MAX_DEACTIVATION: i64 = 1_000_000_000_000;

/// Whether the detector emits an activation edge for `fixture` with the
/// avatar at `user_position`: the fixture is idle and the full
/// three-dimensional distance between them is strictly below the fixture's
/// detection radius.  Fixtures already activated are never re-evaluated.
pub open spec fn detect_edge_spec(fixture: Fixture, user_position: Vector3) -> bool {
    &&& !fixture.proximity.is_activated
    &&& fixture.position.dist2_xyz(user_position) < sq(fixture.proximity.detection_radius as int)
}

/// One frame of the activation/decay state machine for a single fixture.
/// An edge (re)starts the activated timer at zero.  Otherwise an activated
/// fixture accumulates `dt`; reaching `deactivation_time` deactivates it,
/// freezing the timer.  An idle fixture without an edge is untouched.
pub open spec fn fixture_step_spec(fixture: Fixture, edge: bool, dt: i64, deactivation_time: i64)
    -> Fixture
    recommends
        0 <= dt,
        fixture.proximity.elapsed_activated + dt <= i64::MAX,
{
    if edge {
        Fixture {
            position: fixture.position,
            proximity: ProximityActivated {
                is_activated: true,
                detection_radius: fixture.proximity.detection_radius,
                elapsed_activated: 0,
            },
        }
    } else if fixture.proximity.is_activated {
        let elapsed = (fixture.proximity.elapsed_activated + dt) as i64;
        Fixture {
            position: fixture.position,
            proximity: ProximityActivated {
                is_activated: elapsed < deactivation_time,
                detection_radius: fixture.proximity.detection_radius,
                elapsed_activated: elapsed,
            },
        }
    } else {
        fixture
    }
}

/// The brightness derived from a proximity state: while activated it falls
/// linearly with the timer's progress toward the threshold, starting at
/// `LIT`; while idle it is exactly `DIMMED`.
pub open spec fn brightness_spec(proximity: ProximityActivated, deactivation_time: i64) -> i64
    recommends
        proximity.wf(deactivation_time),
        0 < deactivation_time,
{
    if proximity.is_activated {
        (((deactivation_time - proximity.elapsed_activated) * LIT) / (deactivation_time as int))
            as i64
    } else {
        DIMMED
    }
}

/// The proximity detector: scans every fixture against the avatar's current
/// position and returns the frame's activation edges, one flag per fixture.
/// It reads the world and emits events; it mutates nothing.
pub fn make_close_activated(fixtures: &Vec<Fixture>, user_position: Vector3) -> (edges: Vec<bool>)
    requires
        forall|i: int|
            0 <= i < fixtures@.len() ==> (#[trigger] fixtures@[i]).wf(MAX_DEACTIVATION),
        -MAX_ABS_POS <= user_position.x <= MAX_ABS_POS,
        -MAX_ABS_POS <= user_position.y <= MAX_ABS_POS,
        -MAX_ABS_POS <= user_position.z <= MAX_ABS_POS,
    ensures
        edges@.len() == fixtures@.len(),
        forall|i: int|
            0 <= i < fixtures@.len() ==> edges@[i] == detect_edge_spec(
                fixtures@[i],
                user_position,
            ),
{
    let mut edges: Vec<bool> = Vec::new();
    let mut i: usize = 0;
    while i < fixtures.len()
        invariant
            i <= fixtures@.len(),
            edges@.len() == i,
            forall|j: int|
                0 <= j < fixtures@.len() ==> (#[trigger] fixtures@[j]).wf(MAX_DEACTIVATION),
            -MAX_ABS_POS <= user_position.x <= MAX_ABS_POS,
            -MAX_ABS_POS <= user_position.y <= MAX_ABS_POS,
            -MAX_ABS_POS <= user_position.z <= MAX_ABS_POS,
            forall|j: int|
                0 <= j < i ==> edges@[j] == detect_edge_spec(fixtures@[j], user_position),
        decreases fixtures@.len() - i,
    {
        let fixture = fixtures[i];
        let edge = !fixture.proximity.is_activated && fixture.position.within_xyz(
            user_position,
            fixture.proximity.detection_radius,
        );
        edges.push(edge);
        i = i + 1;
    }
    edges
}

/// One frame of the state machine for a single fixture, with the edge the
/// detector emitted for it this frame.  Preserves the state machine's
/// invariant.
pub fn fixture_step(fixture: Fixture, edge: bool, dt: i64, deactivation_time: i64) -> (stepped:
    Fixture)
    requires
        fixture.proximity.wf(deactivation_time),
        0 <= dt <= MAX_DT,
        0 < deactivation_time <= MAX_DEACTIVATION,
    ensures
        stepped == fixture_step_spec(fixture, edge, dt, deactivation_time),
        stepped.proximity.wf(deactivation_time),
        stepped.position == fixture.position,
        stepped.proximity.detection_radius == fixture.proximity.detection_radius,
{
    if edge {
        Fixture {
            position: fixture.position,
            proximity: ProximityActivated {
                is_activated: true,
                detection_radius: fixture.proximity.detection_radius,
                elapsed_activated: 0,
            },
        }
    } else if fixture.proximity.is_activated {
        let elapsed: i64 = fixture.proximity.elapsed_activated + dt;
        Fixture {
            position: fixture.position,
            proximity: ProximityActivated {
                is_activated: elapsed < deactivation_time,
                detection_radius: fixture.proximity.detection_radius,
                elapsed_activated: elapsed,
            },
        }
    } else {
        fixture
    }
}

/// The brightness of one fixture, computed exactly as `brightness_spec`.
pub fn brightness(proximity: ProximityActivated, deactivation_time: i64) -> (level: i64)
    requires
        proximity.wf(deactivation_time),
        0 < deactivation_time <= MAX_DEACTIVATION,
    ensures
        level == brightness_spec(proximity, deactivation_time),
{
    if proximity.is_activated {
        let remaining: i64 = deactivation_time - proximity.elapsed_activated;
        let level: u64 = (remaining as u64) * (LIT as u64) / (deactivation_time as u64);
        proof {
            lemma_div_is_ordered(
                remaining as int * LIT,
                deactivation_time as int * LIT,
                deactivation_time as int,
            );
            lemma_div_multiples_vanish(LIT as int, deactivation_time as int);
            lemma_div_pos_is_pos(remaining as int * LIT, deactivation_time as int);
        }
        level as i64
    } else {
        DIMMED
    }
}

/// The activation/decay state machine over the whole fixture set: applies
/// this frame's activation edges, advances every activated timer by `dt`,
/// deactivates the timers that reach `deactivation_time`, and returns the
/// brightness each fixture shows for the frame.
pub fn light_up_activated(
    fixtures: &mut Vec<Fixture>,
    edges: &Vec<bool>,
    dt: i64,
    deactivation_time: i64,
) -> (levels: Vec<i64>)
    requires
        edges@.len() == old(fixtures)@.len(),
        forall|i: int|
            0 <= i < old(fixtures)@.len() ==> (#[trigger] old(fixtures)@[i]).proximity.wf(
                deactivation_time,
            ),
        0 <= dt <= MAX_DT,
        0 < deactivation_time <= MAX_DEACTIVATION,
    ensures
        final(fixtures)@.len() == old(fixtures)@.len(),
        levels@.len() == old(fixtures)@.len(),
        forall|i: int|
            0 <= i < old(fixtures)@.len() ==> final(fixtures)@[i] == fixture_step_spec(
                old(fixtures)@[i],
                edges@[i],
                dt,
                deactivation_time,
            ),
        forall|i: int|
            0 <= i < old(fixtures)@.len() ==> (#[trigger] final(fixtures)@[i]).proximity.wf(
                deactivation_time,
            ),
        forall|i: int|
            0 <= i < old(fixtures)@.len() ==> levels@[i] == brightness_spec(
                final(fixtures)@[i].proximity,
                deactivation_time,
            ),
{
    let mut levels: Vec<i64> = Vec::new();
    let mut i: usize = 0;
    while i < fixtures.len()
        invariant
            i <= fixtures@.len(),
            fixtures@.len() == old(fixtures)@.len(),
            edges@.len() == old(fixtures)@.len(),
            levels@.len() == i,
            0 <= dt <= MAX_DT,
            0 < deactivation_time <= MAX_DEACTIVATION,
            forall|j: int|
                0 <= j < old(fixtures)@.len() ==> (#[trigger] old(fixtures)@[j]).proximity.wf(
                    deactivation_time,
                ),
            forall|j: int| i <= j < fixtures@.len() ==> fixtures@[j] == old(fixtures)@[j],
            forall|j: int|
                0 <= j < i ==> fixtures@[j] == fixture_step_spec(
                    old(fixtures)@[j],
                    edges@[j],
                    dt,
                    deactivation_time,
                ),
            forall|j: int|
                0 <= j < i ==> (#[trigger] fixtures@[j]).proximity.wf(deactivation_time),
            forall|j: int|
                0 <= j < i ==> levels@[j] == brightness_spec(
                    fixtures@[j].proximity,
                    deactivation_time,
                ),
        decreases fixtures@.len() - i,
    {
        let stepped = fixture_step(fixtures[i], edges[i], dt, deactivation_time);
        fixtures.set(i, stepped);
        levels.push(brightness(stepped.proximity, deactivation_time));
        i = i + 1;
    }
    levels
}

/// The state machine run over a whole sequence of frame times with no
/// activation edge in any of them.
pub open spec fn run_fixture(fixture: Fixture, dts: Seq<i64>, deactivation_time: i64) -> Fixture
    decreases dts.len(),
{
    if dts.len() == 0 {
        fixture
    } else {
        run_fixture(
            fixture_step_spec(fixture, false, dts[0], deactivation_time),
            dts.drop_first(),
            deactivation_time,
        )
    }
}

/// The total simulated time of a sequence of frames.
pub open spec fn total_time(dts: Seq<i64>) -> int
    decreases dts.len(),
{
    if dts.len() == 0 {
        0
    } else {
        dts[0] + total_time(dts.drop_first())
    }
}

/// An activation edge on an idle fixture activates it with its timer at
/// exactly zero, whatever the frame's elapsed time.
pub proof fn lemma_activation_edge(
    fixture: Fixture,
    user_position: Vector3,
    dt: i64,
    deactivation_time: i64,
)
    requires
        !fixture.proximity.is_activated,
        fixture.position.dist2_xyz(user_position) < sq(
            fixture.proximity.detection_radius as int,
        ),
    ensures
        detect_edge_spec(fixture, user_position),
        fixture_step_spec(
            fixture,
            detect_edge_spec(fixture, user_position),
            dt,
            deactivation_time,
        ).proximity.is_activated,
        fixture_step_spec(
            fixture,
            detect_edge_spec(fixture, user_position),
            dt,
            deactivation_time,
        ).proximity.elapsed_activated == 0,
{
}

/// While a fixture is activated the detector never emits an edge for it, so
/// a frame never resets its timer: however close the avatar stands (distance
/// zero included), the timer only grows by the frame's elapsed time.
pub proof fn lemma_no_retrigger(
    fixture: Fixture,
    user_position: Vector3,
    dt: i64,
    deactivation_time: i64,
)
    requires
        fixture.proximity.is_activated,
        fixture.proximity.wf(deactivation_time),
        0 <= dt <= MAX_DT,
        0 < deactivation_time <= MAX_DEACTIVATION,
    ensures
        !detect_edge_spec(fixture, user_position),
        fixture_step_spec(
            fixture,
            detect_edge_spec(fixture, user_position),
            dt,
            deactivation_time,
        ).proximity.elapsed_activated == fixture.proximity.elapsed_activated + dt,
        fixture_step_spec(
            fixture,
            detect_edge_spec(fixture, user_position),
            dt,
            deactivation_time,
        ).proximity.elapsed_activated >= fixture.proximity.elapsed_activated,
{
}

/// A deactivated fixture stays deactivated, and exactly as it is, for as
/// long as no activation edge arrives.
pub proof fn lemma_idle_stays(fixture: Fixture, dts: Seq<i64>, deactivation_time: i64)
    requires
        !fixture.proximity.is_activated,
    ensures
        run_fixture(fixture, dts, deactivation_time) == fixture,
    decreases dts.len(),
{
    if dts.len() > 0 {
        lemma_idle_stays(fixture, dts.drop_first(), deactivation_time);
    }
}

/// The frame whose added time makes the timer reach the threshold is the
/// frame that switches the fixture off; a frame that leaves the timer short
/// of the threshold keeps it on, the timer advanced by exactly that frame's
/// time.
pub proof fn lemma_deactivation_crossing(fixture: Fixture, dt: i64, deactivation_time: i64)
    requires
        fixture.proximity.is_activated,
        fixture.proximity.wf(deactivation_time),
        0 <= dt <= MAX_DT,
        0 < deactivation_time <= MAX_DEACTIVATION,
    ensures
        fixture.proximity.elapsed_activated + dt >= deactivation_time ==> !fixture_step_spec(
            fixture,
            false,
            dt,
            deactivation_time,
        ).proximity.is_activated,
        fixture.proximity.elapsed_activated + dt < deactivation_time ==> {
            &&& fixture_step_spec(fixture, false, dt, deactivation_time).proximity.is_activated
            &&& fixture_step_spec(fixture, false, dt, deactivation_time).proximity
                .elapsed_activated == fixture.proximity.elapsed_activated + dt
        },
{
}

/// Deactivation: starting activated, once the frame times accumulated on the
/// timer reach the deactivation threshold — in particular when they sum to
/// exactly the threshold — the fixture ends the run deactivated.  The frame
/// that crosses the threshold switches it off (the single-frame case is
/// `fixture_step_spec` directly); every later edge-free frame leaves it off.
pub proof fn lemma_deactivation(fixture: Fixture, dts: Seq<i64>, deactivation_time: i64)
    requires
        fixture.proximity.is_activated,
        fixture.proximity.wf(deactivation_time),
        0 < deactivation_time <= MAX_DEACTIVATION,
        forall|i: int| 0 <= i < dts.len() ==> 0 <= #[trigger] dts[i] <= MAX_DT,
        fixture.proximity.elapsed_activated + total_time(dts) >= deactivation_time,
    ensures
        !run_fixture(fixture, dts, deactivation_time).proximity.is_activated,
    decreases dts.len(),
{
    if dts.len() == 0 {
        // the invariant keeps an activated timer strictly below the
        // threshold, so an empty run cannot have reached it
        assert(false);
    } else {
        let stepped = fixture_step_spec(fixture, false, dts[0], deactivation_time);
        if stepped.proximity.is_activated {
            assert(forall|i: int|
                0 <= i < dts.drop_first().len() ==> 0 <= #[trigger] dts.drop_first()[i]
                    <= MAX_DT);
            lemma_deactivation(stepped, dts.drop_first(), deactivation_time);
        } else {
            lemma_idle_stays(stepped, dts.drop_first(), deactivation_time);
        }
    }
}

/// Brightness bounds: an activated fixture shows exactly `LIT` the instant
/// its timer is zero, never more than `LIT` nor less than zero while
/// activated, and an idle fixture shows exactly `DIMMED`.
pub proof fn lemma_brightness_bounds(proximity: ProximityActivated, deactivation_time: i64)
    requires
        proximity.wf(deactivation_time),
        0 < deactivation_time <= MAX_DEACTIVATION,
    ensures
        proximity.is_activated && proximity.elapsed_activated == 0 ==> brightness_spec(
            proximity,
            deactivation_time,
        ) == LIT,
        proximity.is_activated ==> 0 <= brightness_spec(proximity, deactivation_time) <= LIT,
        !proximity.is_activated ==> brightness_spec(proximity, deactivation_time) == DIMMED,
{
    if proximity.is_activated {
        let remaining = deactivation_time - proximity.elapsed_activated;
        lemma_div_is_ordered(
            remaining * LIT,
            deactivation_time as int * LIT,
            deactivation_time as int,
        );
        lemma_div_multiples_vanish(LIT as int, deactivation_time as int);
        lemma_div_pos_is_pos(remaining * LIT, deactivation_time as int);
    }
}

/// Brightness decays monotonically: of two activated states with the same
/// threshold, the one whose timer has run longer is never the brighter.
pub proof fn lemma_brightness_monotone(
    first: ProximityActivated,
    second: ProximityActivated,
    deactivation_time: i64,
)
    requires
        first.wf(deactivation_time),
        second.wf(deactivation_time),
        first.is_activated,
        second.is_activated,
        first.elapsed_activated <= second.elapsed_activated,
        0 < deactivation_time <= MAX_DEACTIVATION,
    ensures
        brightness_spec(first, deactivation_time) >= brightness_spec(second, deactivation_time),
{
    assert((deactivation_time - second.elapsed_activated) * LIT <= (deactivation_time
        - first.elapsed_activated) * LIT) by (nonlinear_arith)
        requires
            deactivation_time - second.elapsed_activated <= deactivation_time
                - first.elapsed_activated,
            LIT >= 0,
    ;
    assert(0 <= (deactivation_time - second.elapsed_activated) * LIT) by (nonlinear_arith)
        requires
            0 <= deactivation_time - second.elapsed_activated,
            LIT >= 0,
    ;
    lemma_div_is_ordered(
        (deactivation_time - second.elapsed_activated) * LIT,
        (deactivation_time - first.elapsed_activated) * LIT,
        deactivation_time as int,
    );
}

} // verus!
