//! The mathematical statement of the flock rules.
//!
//! One tick maps a flock to the next one. Every boid is steered by three
//! forces computed from the whole flock as it was before the tick: cohesion
//! toward the center of mass, separation from the neighbours within a radius,
//! and alignment toward the mean velocity. Its velocity is first brought to
//! cruise speed, then the weighted forces are added; the position follows the
//! new velocity and is reflected back through the origin where it left the
//! domain, and the heading is turned to face the new velocity.

use crate::boid::{BoidState, MAX_BOIDS};
use crate::fixed::{magnitude, trunc_div, SCALE};
use crate::vector::{vector_mean, Rot2, Vec2};
use vstd::prelude::*;

verus! {

/// Largest magnitude of a force weight (100.0).
pub const MAX_WEIGHT: i64 = 100_000_000;

/// Largest cruise speed.
pub const MAX_CRUISE_SPEED: i64 = 1_000_000_000_000;

/// Largest offset added to a reflected coordinate (2.0).
pub const MAX_WRAP_NUDGE: i64 = 2_000_000;

/// Longest time step, in millionths of a second (10 s).
pub const MAX_TIME_STEP: i64 = 10_000_000;

/// The tunable constants of the flock rules, in fixed point.
#[derive(Clone, Copy, Debug, PartialEq, Eq)]
pub struct FlockConfig {
    /// Weight of the pull toward the center of mass.
    pub cohesion: i64,
    /// Weight of the push away from close neighbours.
    pub separation: i64,
    /// Weight of the pull toward the mean velocity.
    pub alignment: i64,
    /// Distance below which a neighbour repels.
    pub separation_radius: i64,
    /// Speed that every velocity is brought to before the forces are added.
    pub cruise_speed: i64,
    /// Offset added to a coordinate that is reflected back into the domain.
    pub wrap_nudge: i64,
}

impl FlockConfig {
    /// Every constant lies in its accepted range.
    pub open spec fn wf(self) -> bool {
        &&& magnitude(self.cohesion as int) <= MAX_WEIGHT
        &&& magnitude(self.separation as int) <= MAX_WEIGHT
        &&& magnitude(self.alignment as int) <= MAX_WEIGHT
        &&& 0 <= self.separation_radius
        &&& 0 <= self.cruise_speed <= MAX_CRUISE_SPEED
        &&& 0 <= self.wrap_nudge <= MAX_WRAP_NUDGE
    }

    /// The standard constants: cohesion 0.4, separation 2.0 within a radius
    /// of 0.1, alignment 0.02, cruise speed 150 and a wrap offset of 0.01.
    pub open spec fn standard() -> FlockConfig {
        FlockConfig {
            cohesion: 400_000,
            separation: 2_000_000,
            alignment: 20_000,
            separation_radius: 100_000,
            cruise_speed: 150_000_000,
            wrap_nudge: 10_000,
        }
    }
}

/// The positions of the boids of a flock, in order.
pub open spec fn positions(flock: Seq<BoidState>) -> Seq<Vec2> {
    Seq::new(flock.len(), |i: int| flock[i].position)
}

/// The velocities of the boids of a flock, in order.
pub open spec fn velocities(flock: Seq<BoidState>) -> Seq<Vec2> {
    Seq::new(flock.len(), |i: int| flock[i].velocity)
}

/// The center of mass of a non-empty flock: its mean position.
pub open spec fn mean_position(flock: Seq<BoidState>) -> Vec2 {
    vector_mean(positions(flock))
}

/// The mean velocity of a non-empty flock.
pub open spec fn mean_velocity(flock: Seq<BoidState>) -> Vec2 {
    vector_mean(velocities(flock))
}

/// Cohesion: the displacement from a boid to the center of mass.
pub open spec fn cohesion_force(boid: BoidState, center: Vec2) -> Vec2 {
    center.minus(boid.position)
}

/// The push that a boid at `p` receives from a neighbour at `q`: nothing
/// when the two coincide or are at least `radius` apart, else the unit
/// vector from `q` to `p` divided by their distance, which is their
/// difference divided by its squared length.
pub open spec fn repulsion(p: Vec2, q: Vec2, radius: int) -> Vec2 {
    let d = p.minus(q);
    let d2 = d.norm_squared();
    if 0 < d2 < radius * radius {
        Vec2 {
            x: trunc_div(SCALE * SCALE * d.x, d2),
            y: trunc_div(SCALE * SCALE * d.y, d2),
        }
    } else {
        Vec2::zero()
    }
}

/// The sum of the pushes that a boid at `p` receives from the first `count`
/// boids of the flock.
pub open spec fn repulsion_sum(p: Vec2, flock: Seq<BoidState>, radius: int, count: int) -> Vec2
    decreases count,
{
    if count <= 0 {
        Vec2::zero()
    } else {
        repulsion_sum(p, flock, radius, count - 1).plus(
            repulsion(p, flock[count - 1].position, radius),
        )
    }
}

/// Separation: the sum of the pushes from every boid of the flock.
pub open spec fn separation_force(boid: BoidState, flock: Seq<BoidState>, radius: int) -> Vec2 {
    repulsion_sum(boid.position, flock, radius, flock.len() as int)
}

/// Alignment: the difference between the mean velocity and a boid's own.
pub open spec fn alignment_force(boid: BoidState, flock: Seq<BoidState>) -> Vec2 {
    mean_velocity(flock).minus(boid.velocity)
}

/// The change of velocity that the three forces cause: each force times its
/// weight, summed.
pub open spec fn steering(
    cohesion: Vec2,
    separation: Vec2,
    alignment: Vec2,
    config: FlockConfig,
) -> Vec2 {
    cohesion.scaled(config.cohesion as int).plus(separation.scaled(config.separation as int)).plus(
        alignment.scaled(config.alignment as int),
    )
}

/// The boundary policy on one coordinate: a coordinate outside the domain is
/// reflected through the origin and moved by `nudge`.
pub open spec fn wrap_coordinate(c: int, nudge: int) -> int {
    if magnitude(c) > SCALE {
        -c + nudge
    } else {
        c
    }
}

/// The boundary policy on a position, axis by axis.
pub open spec fn wrap_position(p: Vec2, nudge: int) -> Vec2 {
    Vec2 { x: wrap_coordinate(p.x, nudge), y: wrap_coordinate(p.y, nudge) }
}

/// The velocity of a boid after a tick: its old velocity at cruise speed, plus
/// the steering. A boid at rest has no direction to cruise in and gets the
/// steering alone.
pub open spec fn next_velocity(boid: BoidState, steer: Vec2, config: FlockConfig) -> Vec2 {
    boid.velocity.rescaled(config.cruise_speed as int).plus(steer)
}

/// The position that a boid reaches in `dt` at `velocity`, before the
/// boundary policy is applied.
pub open spec fn moved_position(boid: BoidState, velocity: Vec2, dt: int) -> Vec2 {
    boid.position.plus(velocity.scaled(dt))
}

/// The state of a boid after a tick of length `dt` under the given steering.
/// The heading faces the new velocity; where that is zero the old heading
/// stays.
pub open spec fn advance(boid: BoidState, steer: Vec2, dt: int, config: FlockConfig) -> BoidState {
    let velocity = next_velocity(boid, steer, config);
    BoidState {
        position: wrap_position(moved_position(boid, velocity, dt), config.wrap_nudge as int),
        rotation: Rot2::facing(velocity, boid.rotation),
        velocity,
    }
}

/// The steering of one boid of the flock.
pub open spec fn boid_steering(boid: BoidState, flock: Seq<BoidState>, config: FlockConfig) -> Vec2 {
    steering(
        cohesion_force(boid, mean_position(flock)),
        separation_force(boid, flock, config.separation_radius as int),
        alignment_force(boid, flock),
        config,
    )
}

/// The state of one boid of the flock after a tick.
pub open spec fn next_boid(
    boid: BoidState,
    flock: Seq<BoidState>,
    dt: int,
    config: FlockConfig,
) -> BoidState {
    advance(boid, boid_steering(boid, flock, config), dt, config)
}

/// Where one boid of the flock stands after moving for `dt` at its new
/// velocity, before the boundary policy is applied.
pub open spec fn unwrapped_position(
    boid: BoidState,
    flock: Seq<BoidState>,
    dt: int,
    config: FlockConfig,
) -> Vec2 {
    moved_position(boid, next_velocity(boid, boid_steering(boid, flock, config), config), dt)
}

/// The coordinates from which the boundary policy lands in the domain: those
/// of the domain itself, and those that overshoot its upper edge by no more
/// than `nudge`.
pub open spec fn lands_in_domain(c: int, nudge: int) -> bool {
    -SCALE <= c <= SCALE + nudge
}

/// The flock after a tick: every boid advanced against the flock as it was
/// before the tick.
pub open spec fn next_flock(flock: Seq<BoidState>, dt: int, config: FlockConfig) -> Seq<BoidState> {
    Seq::new(flock.len(), |i: int| next_boid(flock[i], flock, dt, config))
}

/// Every position of the flock is within `limit`.
pub open spec fn positions_within(flock: Seq<BoidState>, limit: int) -> bool {
    forall|i: int| 0 <= i < flock.len() ==> (#[trigger] flock[i]).position.within(limit)
}

/// Every velocity of the flock is within `limit`.
pub open spec fn velocities_within(flock: Seq<BoidState>, limit: int) -> bool {
    forall|i: int| 0 <= i < flock.len() ==> (#[trigger] flock[i]).velocity.within(limit)
}

/// Why a tick is refused.
#[derive(Clone, Copy, Debug, PartialEq, Eq)]
pub enum StepError {
    /// The flock has no boid.
    EmptyFlock,
    /// The flock has more than `MAX_BOIDS` boids.
    FlockTooLarge,
    /// The time step is negative or longer than `MAX_TIME_STEP`.
    InvalidTimeStep,
    /// A constant of the configuration is out of range.
    InvalidConfig,
    /// A boid is out of the range on which the rules are computed.
    InvalidBoid,
}

/// The reason for which a tick on these inputs is refused, if there is one.
/// The checks are made in the order of the variants of `StepError`.
pub open spec fn step_refusal(flock: Seq<BoidState>, dt: int, config: FlockConfig) -> Option<
    StepError,
> {
    if flock.len() == 0 {
        Some(StepError::EmptyFlock)
    } else if flock.len() > MAX_BOIDS {
        Some(StepError::FlockTooLarge)
    } else if !(0 <= dt <= MAX_TIME_STEP) {
        Some(StepError::InvalidTimeStep)
    } else if !config.wf() {
        Some(StepError::InvalidConfig)
    } else if !crate::boid::flock_wf(flock) {
        Some(StepError::InvalidBoid)
    } else {
        None
    }
}

} // verus!
