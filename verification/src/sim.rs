//! The tick of the simulation: the three forces and the update of the flock.

use crate::boid::{
    flock_is_valid, flock_states, flock_wf, Boid, MAX_BOIDS, MAX_COORDINATE, MAX_VELOCITY,
};
use crate::bounds::{
    lemma_mean_position_within, lemma_mean_velocity_within, lemma_repulsion_sum_within,
    lemma_repulsion_within, lemma_scaled_within, MAX_REPULSION,
};
use crate::fixed::{lemma_product_bound, widening_product, SCALE};
use crate::rules::{
    advance, alignment_force, cohesion_force, mean_position, mean_velocity, next_boid, next_flock,
    positions, positions_within, repulsion_sum, separation_force, steering, step_refusal,
    velocities, wrap_coordinate, FlockConfig, StepError, MAX_CRUISE_SPEED,
    MAX_TIME_STEP, MAX_WEIGHT, MAX_WRAP_NUDGE,
};
use crate::vector::{
    all_between, lemma_vector_mean_between, lemma_vector_sum_between,
    vector_sum, Rotation2, Vector2,
};
use vstd::prelude::*;

verus! {

/// The radius within which `separation` lets a neighbour repel (0.1).
pub const SEPARATION_RADIUS: i64 = 100_000;

/// Largest magnitude of a coordinate between which `separation_within`
/// computes distances: beyond it a squared distance leaves 128 bits.
pub const MAX_SEPARATION_COORDINATE: i64 = 4_000_000_000_000_000_000;

/// Largest flock whose pushes `separation_within` can add up in 64 bits.
pub const MAX_SEPARATION_FLOCK: usize = 9_000_000;

/// Largest magnitude of a velocity component after a tick on valid inputs.
pub const MAX_NEXT_VELOCITY: i64 = 420_000_000_000_000_000;

/// Largest magnitude of a position coordinate after a tick on valid inputs.
pub const MAX_NEXT_COORDINATE: i64 = 4_300_000_000_000_000_000;

/// The center of mass of a non-empty flock: its mean position.
pub fn center_of_mass(boids: &[Boid]) -> (center: Vector2)
    requires
        boids@.len() >= 1,
    ensures
        center@ == mean_position(flock_states(boids@)),
{
    let ghost vectors = positions(flock_states(boids@));
    let n = boids.len();
    let mut sum_x: i128 = 0;
    let mut sum_y: i128 = 0;
    let mut i: usize = 0;
    proof {
        assert forall|j: int| 0 <= j < vectors.len() implies (#[trigger] vectors[j]).between(
            i64::MIN as int,
            i64::MAX as int,
        ) by {
            assert(vectors[j] == boids@[j].position@);
        }
    }
    while i < n
        invariant
            i <= n,
            n == boids@.len(),
            vectors == positions(flock_states(boids@)),
            all_between(vectors, i64::MIN as int, i64::MAX as int),
            sum_x == vector_sum(vectors, i as int).x,
            sum_y == vector_sum(vectors, i as int).y,
        decreases n - i,
    {
        proof {
            lemma_vector_sum_between(vectors, i as int, i64::MIN as int, i64::MAX as int);
            assert(vectors[i as int] == boids@[i as int].position@);
        }
        sum_x = sum_x + boids[i].position.x as i128;
        sum_y = sum_y + boids[i].position.y as i128;
        i += 1;
    }
    proof {
        lemma_vector_mean_between(vectors, i64::MIN as int, i64::MAX as int);
    }
    Vector2 { x: (sum_x / (n as i128)) as i64, y: (sum_y / (n as i128)) as i64 }
}

/// The mean velocity of a non-empty flock.
pub fn average_velocity(boids: &[Boid]) -> (mean: Vector2)
    requires
        boids@.len() >= 1,
    ensures
        mean@ == mean_velocity(flock_states(boids@)),
{
    let ghost vectors = velocities(flock_states(boids@));
    let n = boids.len();
    let mut sum_x: i128 = 0;
    let mut sum_y: i128 = 0;
    let mut i: usize = 0;
    proof {
        assert forall|j: int| 0 <= j < vectors.len() implies (#[trigger] vectors[j]).between(
            i64::MIN as int,
            i64::MAX as int,
        ) by {
            assert(vectors[j] == boids@[j].velocity@);
        }
    }
    while i < n
        invariant
            i <= n,
            n == boids@.len(),
            vectors == velocities(flock_states(boids@)),
            all_between(vectors, i64::MIN as int, i64::MAX as int),
            sum_x == vector_sum(vectors, i as int).x,
            sum_y == vector_sum(vectors, i as int).y,
        decreases n - i,
    {
        proof {
            lemma_vector_sum_between(vectors, i as int, i64::MIN as int, i64::MAX as int);
            assert(vectors[i as int] == boids@[i as int].velocity@);
        }
        sum_x = sum_x + boids[i].velocity.x as i128;
        sum_y = sum_y + boids[i].velocity.y as i128;
        i += 1;
    }
    proof {
        lemma_vector_mean_between(vectors, i64::MIN as int, i64::MAX as int);
    }
    Vector2 { x: (sum_x / (n as i128)) as i64, y: (sum_y / (n as i128)) as i64 }
}

/// Cohesion: the displacement from `boid` to the center of mass.
pub fn cohesion(boid: Boid, center_of_mass: Vector2) -> (force: Vector2)
    requires
        cohesion_force(boid@, center_of_mass@).representable(),
    ensures
        force@ == cohesion_force(boid@, center_of_mass@),
{
    center_of_mass.minus(boid.position)
}

/// Separation with a chosen radius: the sum, over the boids of the flock that
/// are closer to `boid` than `radius` without coinciding with it, of the unit
/// vector pointing away from the neighbour, divided by the distance.
pub fn separation_within(boid: Boid, boids: &[Boid], radius: i64) -> (force: Vector2)
    requires
        boid@.position.within(MAX_SEPARATION_COORDINATE as int),
        positions_within(flock_states(boids@), MAX_SEPARATION_COORDINATE as int),
        boids@.len() <= MAX_SEPARATION_FLOCK,
    ensures
        force@ == separation_force(boid@, flock_states(boids@), radius as int),
        force@.within(boids@.len() * MAX_REPULSION),
{
    let ghost flock = flock_states(boids@);
    let ghost p = boid@.position;
    let n = boids.len();
    let radius_squared: i128 = widening_product(radius, radius);
    let mut sum_x: i128 = 0;
    let mut sum_y: i128 = 0;
    let mut j: usize = 0;
    while j < n
        invariant
            j <= n,
            n == boids@.len(),
            n <= MAX_SEPARATION_FLOCK,
            flock == flock_states(boids@),
            p == boid@.position,
            p.within(MAX_SEPARATION_COORDINATE as int),
            positions_within(flock, MAX_SEPARATION_COORDINATE as int),
            radius_squared == radius * radius,
            sum_x == repulsion_sum(p, flock, radius as int, j as int).x,
            sum_y == repulsion_sum(p, flock, radius as int, j as int).y,
        decreases n - j,
    {
        let other = boids[j].position;
        proof {
            lemma_repulsion_sum_within(p, flock, radius as int, j as int);
            lemma_repulsion_within(p, flock[j as int].position, radius as int);
            assert(flock[j as int].position.within(MAX_SEPARATION_COORDINATE as int));
            assert(other@ == flock[j as int].position);
        }
        let dx: i64 = boid.position.x - other.x;
        let dy: i64 = boid.position.y - other.y;
        proof {
            let limit = 2 * MAX_SEPARATION_COORDINATE;
            lemma_product_bound(dx as int, dx as int, limit, limit);
            lemma_product_bound(dy as int, dy as int, limit, limit);
            assert(dx * dx >= 0 && dy * dy >= 0) by (nonlinear_arith);
        }
        let distance_squared: i128 = widening_product(dx, dx) + widening_product(dy, dy);
        if 0 < distance_squared && distance_squared < radius_squared {
            let scale_squared: i128 = (SCALE as i128) * (SCALE as i128);
            sum_x = sum_x + (scale_squared * (dx as i128)) / distance_squared;
            sum_y = sum_y + (scale_squared * (dy as i128)) / distance_squared;
        }
        j += 1;
    }
    proof {
        lemma_repulsion_sum_within(p, flock, radius as int, n as int);
    }
    Vector2 { x: sum_x as i64, y: sum_y as i64 }
}

/// Separation: the push away from the neighbours closer than
/// `SEPARATION_RADIUS`.
pub fn separation(boid: Boid, boids: &[Boid]) -> (force: Vector2)
    requires
        boid@.position.within(MAX_SEPARATION_COORDINATE as int),
        positions_within(flock_states(boids@), MAX_SEPARATION_COORDINATE as int),
        boids@.len() <= MAX_SEPARATION_FLOCK,
    ensures
        force@ == separation_force(boid@, flock_states(boids@), SEPARATION_RADIUS as int),
        force@.within(boids@.len() * MAX_REPULSION),
{
    separation_within(boid, boids, SEPARATION_RADIUS)
}

/// Alignment: the difference between the mean velocity of the flock and the
/// velocity of `boid`.
pub fn alignment(boid: Boid, boids: &[Boid]) -> (force: Vector2)
    requires
        boids@.len() >= 1,
        alignment_force(boid@, flock_states(boids@)).representable(),
    ensures
        force@ == alignment_force(boid@, flock_states(boids@)),
{
    let average = average_velocity(boids);
    average.minus(boid.velocity)
}

impl FlockConfig {
    /// Whether every constant lies in its accepted range.
    pub fn is_valid(&self) -> (ok: bool)
        ensures
            ok == self.wf(),
    {
        -MAX_WEIGHT <= self.cohesion && self.cohesion <= MAX_WEIGHT && -MAX_WEIGHT
            <= self.separation && self.separation <= MAX_WEIGHT && -MAX_WEIGHT <= self.alignment
            && self.alignment <= MAX_WEIGHT && 0 <= self.separation_radius && 0
            <= self.cruise_speed && self.cruise_speed <= MAX_CRUISE_SPEED && 0 <= self.wrap_nudge
            && self.wrap_nudge <= MAX_WRAP_NUDGE
    }
}

impl Default for FlockConfig {
    /// The standard constants.
    fn default() -> (config: FlockConfig)
        ensures
            config == FlockConfig::standard(),
            config.wf(),
    {
        FlockConfig {
            cohesion: 400_000,
            separation: 2_000_000,
            alignment: 20_000,
            separation_radius: SEPARATION_RADIUS,
            cruise_speed: 150_000_000,
            wrap_nudge: 10_000,
        }
    }
}

/// The boundary policy on one coordinate: a coordinate outside the domain is
/// reflected through the origin and moved by `nudge`.
pub fn wrap(c: i64, nudge: i64) -> (wrapped: i64)
    requires
        i64::MIN <= wrap_coordinate(c as int, nudge as int) <= i64::MAX,
    ensures
        wrapped == wrap_coordinate(c as int, nudge as int),
{
    if c > SCALE || c < -SCALE {
        nudge - c
    } else {
        c
    }
}

/// Advances one boid by a tick of length `dt`, given the three forces that
/// the flock exerts on it: the velocity is brought to cruise speed and the
/// weighted forces are added, the position follows the new velocity and is
/// wrapped, and the heading is turned to face the new velocity.
pub fn advance_boid(
    boid: Boid,
    cohesion: Vector2,
    separation: Vector2,
    alignment: Vector2,
    dt: i64,
    config: &FlockConfig,
) -> (next: Boid)
    requires
        boid@.wf(),
        config.wf(),
        0 <= dt <= MAX_TIME_STEP,
        cohesion@.within(2 * MAX_COORDINATE),
        separation@.within(MAX_BOIDS * MAX_REPULSION),
        alignment@.within(2 * MAX_VELOCITY),
    ensures
        next@ == advance(
            boid@,
            steering(cohesion@, separation@, alignment@, *config),
            dt as int,
            *config,
        ),
        next@.velocity.within(MAX_NEXT_VELOCITY as int),
        next@.position.within(MAX_NEXT_COORDINATE as int),
        next@.rotation.wf(),
{
    proof {
        lemma_scaled_within(
            cohesion@,
            config.cohesion as int,
            2 * MAX_COORDINATE,
            MAX_WEIGHT as int,
            200_000_000_000,
        );
        lemma_scaled_within(
            separation@,
            config.separation as int,
            MAX_BOIDS * MAX_REPULSION,
            MAX_WEIGHT as int,
            409_600_000_000_000_000,
        );
        lemma_scaled_within(
            alignment@,
            config.alignment as int,
            2 * MAX_VELOCITY,
            MAX_WEIGHT as int,
            2_000_000_000_000_000,
        );
    }
    let pull = cohesion.scaled(config.cohesion);
    let push = separation.scaled(config.separation);
    let turn = alignment.scaled(config.alignment);
    let steer = pull.plus(push).plus(turn);
    let cruise = boid.velocity.rescaled(config.cruise_speed);
    let velocity = cruise.plus(steer);
    proof {
        lemma_scaled_within(
            velocity@,
            dt as int,
            MAX_NEXT_VELOCITY as int,
            MAX_TIME_STEP as int,
            4_200_000_000_000_000_000,
        );
    }
    let moved = boid.position.plus(velocity.scaled(dt));
    let position = Vector2 {
        x: wrap(moved.x, config.wrap_nudge),
        y: wrap(moved.y, config.wrap_nudge),
    };
    let rotation = Rotation2::facing(velocity, boid.rotation);
    Boid { position, rotation, velocity }
}

/// Advances the flock by one tick of length `dt` under `config`.
///
/// The tick is refused, and the flock left as it is, when the flock is empty
/// or larger than `MAX_BOIDS`, when `dt` is negative or longer than
/// `MAX_TIME_STEP`, when a constant of `config` is out of range, or when a
/// boid is not valid. Otherwise every boid is replaced by its successor, all
/// successors being computed from the flock as it was before the tick.
pub fn step_flock(boids: &mut Vec<Boid>, dt: i64, config: &FlockConfig) -> (result: Result<
    (),
    StepError,
>)
    ensures
        final(boids)@.len() == old(boids)@.len(),
        match result {
            Ok(()) => {
                &&& step_refusal(flock_states(old(boids)@), dt as int, *config) is None
                &&& flock_states(final(boids)@) == next_flock(
                    flock_states(old(boids)@),
                    dt as int,
                    *config,
                )
            },
            Err(error) => {
                &&& step_refusal(flock_states(old(boids)@), dt as int, *config) == Some(error)
                &&& final(boids)@ == old(boids)@
            },
        },
{
    let n = boids.len();
    if n == 0 {
        return Err(StepError::EmptyFlock);
    }
    if n > MAX_BOIDS {
        return Err(StepError::FlockTooLarge);
    }
    if dt < 0 || dt > MAX_TIME_STEP {
        return Err(StepError::InvalidTimeStep);
    }
    if !config.is_valid() {
        return Err(StepError::InvalidConfig);
    }
    if !flock_is_valid(boids.as_slice()) {
        return Err(StepError::InvalidBoid);
    }
    let ghost flock = flock_states(boids@);
    proof {
        assert forall|j: int| 0 <= j < flock.len() implies (#[trigger] flock[j]).position.within(
            MAX_COORDINATE as int,
        ) && flock[j].velocity.within(MAX_VELOCITY as int) by {
            assert(flock[j].wf());
        }
        lemma_mean_position_within(flock, MAX_COORDINATE as int);
        lemma_mean_velocity_within(flock, MAX_VELOCITY as int);
    }
    let center = center_of_mass(boids.as_slice());
    let mut next: Vec<Boid> = Vec::new();
    let mut i: usize = 0;
    while i < n
        invariant
            i <= n,
            n == boids@.len(),
            1 <= n <= MAX_BOIDS,
            boids@ == old(boids)@,
            flock == flock_states(boids@),
            flock_wf(flock),
            positions_within(flock, MAX_COORDINATE as int),
            mean_velocity(flock).within(MAX_VELOCITY as int),
            config.wf(),
            0 <= dt <= MAX_TIME_STEP,
            center@ == mean_position(flock),
            center@.within(MAX_COORDINATE as int),
            next@.len() == i,
            forall|j: int|
                0 <= j < i ==> (#[trigger] next@[j])@ == next_boid(
                    flock[j],
                    flock,
                    dt as int,
                    *config,
                ),
        decreases n - i,
    {
        let boid = boids[i];
        assert(boid@ == flock[i as int]);
        assert(flock[i as int].wf());
        let pull = cohesion(boid, center);
        let push = separation_within(boid, boids.as_slice(), config.separation_radius);
        let turn = alignment(boid, boids.as_slice());
        let successor = advance_boid(boid, pull, push, turn, dt, config);
        next.push(successor);
        i += 1;
    }
    *boids = next;
    assert(flock_states(boids@) =~= next_flock(flock, dt as int, *config));
    Ok(())
}

/// Advances the flock by one tick of length `dt`, in millionths of a second,
/// under the standard constants.
pub fn update_boids(boids: &mut Vec<Boid>, dt: i64) -> (result: Result<(), StepError>)
    ensures
        final(boids)@.len() == old(boids)@.len(),
        match result {
            Ok(()) => {
                &&& step_refusal(flock_states(old(boids)@), dt as int, FlockConfig::standard())
                    is None
                &&& flock_states(final(boids)@) == next_flock(
                    flock_states(old(boids)@),
                    dt as int,
                    FlockConfig::standard(),
                )
            },
            Err(error) => {
                &&& step_refusal(flock_states(old(boids)@), dt as int, FlockConfig::standard())
                    == Some(error)
                &&& final(boids)@ == old(boids)@
            },
        },
{
    let config = FlockConfig::default();
    step_flock(boids, dt, &config)
}

} // verus!
