//! How large the quantities of a tick can become.
//!
//! These bounds show that a tick on accepted inputs never leaves the range of
//! 64-bit fixed point.

use crate::boid::BoidState;
use crate::fixed::{lemma_product_bound, lemma_trunc_div_bound, magnitude, SCALE};
use crate::rules::{
    mean_position, mean_velocity, positions, positions_within, repulsion, repulsion_sum,
    velocities, velocities_within,
};
use crate::vector::{all_between, lemma_vector_mean_between, Vec2};
use vstd::prelude::*;

verus! {

/// Largest magnitude of a single push between two boids: `SCALE * SCALE`,
/// reached at a distance of one stored unit.
pub const MAX_REPULSION: i64 = 1_000_000_000_000;

/// The mean position of a flock lies within the bound of its positions.
pub proof fn lemma_mean_position_within(flock: Seq<BoidState>, limit: int)
    requires
        flock.len() > 0,
        limit >= 0,
        positions_within(flock, limit),
    ensures
        mean_position(flock).within(limit),
{
    let vectors = positions(flock);
    assert forall|i: int| 0 <= i < vectors.len() implies (#[trigger] vectors[i]).between(
        -limit,
        limit,
    ) by {
        assert(flock[i].position.within(limit));
    }
    assert(all_between(vectors, -limit, limit));
    lemma_vector_mean_between(vectors, -limit, limit);
}

/// The mean velocity of a flock lies within the bound of its velocities.
pub proof fn lemma_mean_velocity_within(flock: Seq<BoidState>, limit: int)
    requires
        flock.len() > 0,
        limit >= 0,
        velocities_within(flock, limit),
    ensures
        mean_velocity(flock).within(limit),
{
    let vectors = velocities(flock);
    assert forall|i: int| 0 <= i < vectors.len() implies (#[trigger] vectors[i]).between(
        -limit,
        limit,
    ) by {
        assert(flock[i].velocity.within(limit));
    }
    assert(all_between(vectors, -limit, limit));
    lemma_vector_mean_between(vectors, -limit, limit);
}

/// No single push exceeds `MAX_REPULSION`.
pub proof fn lemma_repulsion_within(p: Vec2, q: Vec2, radius: int)
    ensures
        repulsion(p, q, radius).within(MAX_REPULSION as int),
{
    let d = p.minus(q);
    let d2 = d.norm_squared();
    if 0 < d2 < radius * radius {
        let s2 = SCALE * SCALE;
        assert(s2 == MAX_REPULSION);
        assert(magnitude(d.x) <= d2 && magnitude(d.y) <= d2) by (nonlinear_arith)
            requires
                d2 == d.x * d.x + d.y * d.y,
                magnitude(d.x) == d.x || magnitude(d.x) == -d.x,
                magnitude(d.y) == d.y || magnitude(d.y) == -d.y,
        ;
        lemma_product_bound(s2, d.x, s2, d2);
        lemma_product_bound(s2, d.y, s2, d2);
        lemma_trunc_div_bound(s2 * d.x, d2, s2);
        lemma_trunc_div_bound(s2 * d.y, d2, s2);
    }
}

/// A sum of pushes is bounded by `MAX_REPULSION` times their number.
pub proof fn lemma_repulsion_sum_within(p: Vec2, flock: Seq<BoidState>, radius: int, count: int)
    requires
        0 <= count,
    ensures
        repulsion_sum(p, flock, radius, count).within(count * MAX_REPULSION),
    decreases count,
{
    if count > 0 {
        lemma_repulsion_sum_within(p, flock, radius, count - 1);
        lemma_repulsion_within(p, flock[count - 1].position, radius);
    }
}

/// A fixed-point multiple of a bounded vector by a bounded factor is bounded
/// by the product of the two bounds.
pub proof fn lemma_scaled_within(v: Vec2, w: int, v_max: int, w_max: int, limit: int)
    requires
        v.within(v_max),
        magnitude(w) <= w_max,
        limit >= 0,
        v_max * w_max <= limit * SCALE,
    ensures
        v.scaled(w).within(limit),
{
    lemma_product_bound(v.x, w, v_max, w_max);
    lemma_product_bound(v.y, w, v_max, w_max);
    lemma_trunc_div_bound(v.x * w, SCALE as int, limit);
    lemma_trunc_div_bound(v.y * w, SCALE as int, limit);
}

} // verus!
