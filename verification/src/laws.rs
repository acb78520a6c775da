//! Properties of the flock rules that hold of every flock.

use crate::boid::{flock_states, Boid, BoidState, MAX_BOIDS, MAX_COORDINATE, MAX_VELOCITY};
use crate::bounds::{
    lemma_mean_position_within, lemma_mean_velocity_within, lemma_repulsion_sum_within,
    lemma_scaled_within, MAX_REPULSION,
};
use crate::fixed::{magnitude, SCALE};
use crate::mesh::{drawable, flock_drawable};
use crate::rules::{
    alignment_force, boid_steering, cohesion_force, lands_in_domain, mean_position, next_boid,
    next_flock, next_velocity, positions_within, separation_force, step_refusal,
    unwrapped_position, velocities_within, wrap_coordinate, FlockConfig, MAX_TIME_STEP,
    MAX_WEIGHT, MAX_WRAP_NUDGE,
};
use crate::sim::{MAX_NEXT_COORDINATE, MAX_NEXT_VELOCITY};
use crate::vector::{lemma_facing_wf, lemma_rescaled_within, Rot2};
use vstd::prelude::*;

verus! {

/// A tick neither creates nor destroys a boid.
pub proof fn law_tick_keeps_count(flock: Seq<BoidState>, dt: int, config: FlockConfig)
    ensures
        next_flock(flock, dt, config).len() == flock.len(),
{
}

/// The boundary policy brings a coordinate into the domain exactly when the
/// coordinate lies in the domain already or overshoots its upper edge by no
/// more than the nudge. A coordinate below the lower edge, or further above
/// the upper edge, is reflected to a point outside the domain.
pub proof fn law_wrap_reaches_domain(c: int, nudge: int)
    requires
        0 <= nudge <= MAX_WRAP_NUDGE,
    ensures
        magnitude(wrap_coordinate(c, nudge)) <= SCALE <==> lands_in_domain(c, nudge),
{
}

/// After a tick a boid lies in the domain exactly when both coordinates of
/// the point it moved to are ones from which the boundary policy lands in the
/// domain.
pub proof fn law_position_in_domain(flock: Seq<BoidState>, dt: int, config: FlockConfig, i: int)
    requires
        0 <= i < flock.len(),
        0 <= config.wrap_nudge <= MAX_WRAP_NUDGE,
    ensures
        next_flock(flock, dt, config)[i].in_domain() <==> {
            let moved = unwrapped_position(flock[i], flock, dt, config);
            &&& lands_in_domain(moved.x, config.wrap_nudge as int)
            &&& lands_in_domain(moved.y, config.wrap_nudge as int)
        },
{
    let moved = unwrapped_position(flock[i], flock, dt, config);
    law_wrap_reaches_domain(moved.x, config.wrap_nudge as int);
    law_wrap_reaches_domain(moved.y, config.wrap_nudge as int);
}

/// A tick of length zero leaves the position of every boid of the domain
/// where it was, and moves every boid that stood outside the domain.
pub proof fn law_zero_step_keeps_position(flock: Seq<BoidState>, config: FlockConfig, i: int)
    requires
        0 <= i < flock.len(),
        0 <= config.wrap_nudge <= MAX_WRAP_NUDGE,
    ensures
        next_flock(flock, 0, config)[i].position == flock[i].position <==> flock[i].in_domain(),
{
    let moved = unwrapped_position(flock[i], flock, 0, config);
    assert(moved == flock[i].position);
}

/// Two flocks with the same states are the same flock.
pub proof fn lemma_flock_states_injective(first: Seq<Boid>, second: Seq<Boid>)
    requires
        flock_states(first) == flock_states(second),
    ensures
        first == second,
{
    assert(first.len() == flock_states(first).len());
    assert(second.len() == flock_states(second).len());
    assert forall|i: int| 0 <= i < first.len() implies first[i] == second[i] by {
        assert(flock_states(first)[i] == first[i]@);
        assert(flock_states(second)[i] == second[i]@);
    }
    assert(first =~= second);
}

/// The tick is a function of the flock, the time step and the constants: two
/// ticks from the same flock with the same time step and constants end in
/// the same flock, component for component.
pub proof fn law_tick_is_deterministic(
    before: Seq<Boid>,
    first: Seq<Boid>,
    second: Seq<Boid>,
    dt: int,
    config: FlockConfig,
)
    requires
        flock_states(first) == next_flock(flock_states(before), dt, config),
        flock_states(second) == next_flock(flock_states(before), dt, config),
    ensures
        first == second,
{
    lemma_flock_states_injective(first, second);
}

/// On inputs that a tick accepts, the successor of every boid has a
/// well-formed heading, a velocity within `MAX_NEXT_VELOCITY` and a position
/// within `MAX_NEXT_COORDINATE`.
pub proof fn law_tick_output_bounded(flock: Seq<BoidState>, dt: int, config: FlockConfig, i: int)
    requires
        step_refusal(flock, dt, config) is None,
        0 <= i < flock.len(),
    ensures
        next_flock(flock, dt, config)[i].rotation.wf(),
        next_flock(flock, dt, config)[i].velocity.within(MAX_NEXT_VELOCITY as int),
        next_flock(flock, dt, config)[i].position.within(MAX_NEXT_COORDINATE as int),
        drawable(next_flock(flock, dt, config)[i]),
{
    let boid = flock[i];
    let n = flock.len() as int;
    let radius = config.separation_radius as int;
    assert(boid.wf());
    assert(positions_within(flock, MAX_COORDINATE as int)) by {
        assert forall|j: int| 0 <= j < flock.len() implies (#[trigger] flock[j]).position.within(
            MAX_COORDINATE as int,
        ) by {
            assert(flock[j].wf());
        }
    }
    assert(velocities_within(flock, MAX_VELOCITY as int)) by {
        assert forall|j: int| 0 <= j < flock.len() implies (#[trigger] flock[j]).velocity.within(
            MAX_VELOCITY as int,
        ) by {
            assert(flock[j].wf());
        }
    }
    lemma_mean_position_within(flock, MAX_COORDINATE as int);
    lemma_mean_velocity_within(flock, MAX_VELOCITY as int);
    lemma_repulsion_sum_within(boid.position, flock, radius, n);
    let pull = cohesion_force(boid, mean_position(flock));
    let push = separation_force(boid, flock, radius);
    let turn = alignment_force(boid, flock);
    assert(push.within(MAX_BOIDS * MAX_REPULSION));
    lemma_scaled_within(
        pull,
        config.cohesion as int,
        2 * MAX_COORDINATE,
        MAX_WEIGHT as int,
        200_000_000_000,
    );
    lemma_scaled_within(
        push,
        config.separation as int,
        MAX_BOIDS * MAX_REPULSION,
        MAX_WEIGHT as int,
        409_600_000_000_000_000,
    );
    lemma_scaled_within(
        turn,
        config.alignment as int,
        2 * MAX_VELOCITY,
        MAX_WEIGHT as int,
        2_000_000_000_000_000,
    );
    lemma_rescaled_within(boid.velocity, config.cruise_speed as int);
    let velocity = next_velocity(boid, boid_steering(boid, flock, config), config);
    assert(velocity.within(MAX_NEXT_VELOCITY as int));
    lemma_scaled_within(
        velocity,
        dt,
        MAX_NEXT_VELOCITY as int,
        MAX_TIME_STEP as int,
        4_200_000_000_000_000_000,
    );
    lemma_facing_wf(velocity, boid.rotation);
    assert(next_flock(flock, dt, config)[i] == next_boid(boid, flock, dt, config));
}

/// A flock that a tick has advanced can be drawn.
pub proof fn law_tick_output_drawable(flock: Seq<BoidState>, dt: int, config: FlockConfig)
    requires
        step_refusal(flock, dt, config) is None,
    ensures
        flock_drawable(next_flock(flock, dt, config)),
{
    let next = next_flock(flock, dt, config);
    assert forall|i: int| 0 <= i < next.len() implies drawable(#[trigger] next[i]) by {
        law_tick_output_bounded(flock, dt, config, i);
    }
}

/// The heading of a boid after a tick faces its new velocity; a boid left at
/// rest keeps the heading it had.
pub proof fn law_heading_follows_velocity(
    flock: Seq<BoidState>,
    dt: int,
    config: FlockConfig,
    i: int,
)
    requires
        0 <= i < flock.len(),
    ensures
        ({
            let next = next_flock(flock, dt, config)[i];
            next.rotation == Rot2::facing(next.velocity, flock[i].rotation)
        }),
{
}

} // verus!
