//! The agents of the flock and their initial state.

use crate::fixed::{lemma_trunc_div_bound, magnitude, trunc_div, SCALE};
use crate::vector::{Rot2, Rotation2, Vec2, Vector2};
use vstd::prelude::*;

verus! {

/// Vertices of the triangle drawn for one boid.
pub const NUM_VERTS: u64 = 3;

/// Size of the flock that `initialize_boids` creates.
pub const NUM_BOIDS: u64 = 20;

/// Largest flock that can be created or advanced.
pub const MAX_BOIDS: usize = 4096;

/// Largest magnitude of a position coordinate that the rules accept: 1000
/// times the half-width of the domain.
pub const MAX_COORDINATE: i64 = 1_000_000_000;

/// Largest magnitude of a velocity component that the rules accept.
pub const MAX_VELOCITY: i64 = 10_000_000_000_000;

/// Horizontal component of the velocity every boid starts with (10.0).
pub const INITIAL_VELOCITY_X: i64 = 10_000_000;

/// Vertical component of the velocity every boid starts with (1.0).
pub const INITIAL_VELOCITY_Y: i64 = 1_000_000;

/// The mathematical state of one boid.
pub struct BoidState {
    /// Where the boid is; the domain is the square `[-SCALE, SCALE]^2`.
    pub position: Vec2,
    /// The orientation it is drawn with, derived from its velocity.
    pub rotation: Rot2,
    /// Its displacement per second.
    pub velocity: Vec2,
}

impl BoidState {
    /// The state lies in the range on which the flock rules are computed.
    pub open spec fn wf(self) -> bool {
        &&& self.position.within(MAX_COORDINATE as int)
        &&& self.rotation.wf()
        &&& self.velocity.within(MAX_VELOCITY as int)
    }

    /// The position lies in the domain.
    pub open spec fn in_domain(self) -> bool {
        self.position.within(SCALE as int)
    }
}

/// One agent of the flock.
#[derive(Clone, Copy, Debug, PartialEq, Eq)]
pub struct Boid {
    pub position: Vector2,
    pub rotation: Rotation2,
    pub velocity: Vector2,
}

impl View for Boid {
    type V = BoidState;

    open spec fn view(&self) -> BoidState {
        BoidState {
            position: self.position@,
            rotation: self.rotation@,
            velocity: self.velocity@,
        }
    }
}

impl Boid {
    /// Whether the boid lies in the range on which the flock rules are
    /// computed.
    pub fn is_valid(&self) -> (ok: bool)
        ensures
            ok == self@.wf(),
    {
        self.position.is_within(MAX_COORDINATE) && self.rotation.is_valid()
            && self.velocity.is_within(MAX_VELOCITY)
    }
}

/// The mathematical states of a sequence of boids, in order.
pub open spec fn flock_states(boids: Seq<Boid>) -> Seq<BoidState> {
    Seq::new(boids.len(), |i: int| boids[i]@)
}

/// Every boid of the flock is well formed.
pub open spec fn flock_wf(flock: Seq<BoidState>) -> bool {
    forall|i: int| 0 <= i < flock.len() ==> (#[trigger] flock[i]).wf()
}

/// Whether every boid of the flock is valid.
pub fn flock_is_valid(boids: &[Boid]) -> (ok: bool)
    ensures
        ok == flock_wf(flock_states(boids@)),
{
    let mut i: usize = 0;
    while i < boids.len()
        invariant
            i <= boids.len(),
            forall|j: int| 0 <= j < i ==> (#[trigger] flock_states(boids@)[j]).wf(),
        decreases boids.len() - i,
    {
        if !boids[i].is_valid() {
            assert(!flock_states(boids@)[i as int].wf());
            return false;
        }
        i += 1;
    }
    true
}

/// The coordinate in `[-SCALE, SCALE)` that a raw 32-bit random word stands
/// for: its upper 24 bits, read as a fraction of the domain's width.
pub open spec fn unit_coordinate(raw: u32) -> int {
    trunc_div((raw / 256 - 8_388_608) * SCALE, 8_388_608)
}

/// The state of a boid created from two raw random words.
pub open spec fn spawn_state(raw_x: u32, raw_y: u32) -> BoidState {
    BoidState {
        position: Vec2 { x: unit_coordinate(raw_x), y: unit_coordinate(raw_y) },
        rotation: Rot2::identity(),
        velocity: Vec2 { x: INITIAL_VELOCITY_X as int, y: INITIAL_VELOCITY_Y as int },
    }
}

/// `state` is what `spawn_state` gives for some pair of random words.
pub open spec fn is_spawn_state(state: BoidState) -> bool {
    exists|raw_x: u32, raw_y: u32| state == #[trigger] spawn_state(raw_x, raw_y)
}

/// A coordinate drawn from a random word lies in the domain.
pub proof fn lemma_unit_coordinate_in_domain(raw: u32)
    ensures
        -SCALE <= unit_coordinate(raw) < SCALE,
{
    let k = raw / 256 - 8_388_608;
    assert(-8_388_608 <= k < 8_388_608);
    lemma_trunc_div_bound(k * SCALE, 8_388_608, SCALE as int);
    if k >= 0 {
        assert((k * SCALE) / 8_388_608 < SCALE) by (nonlinear_arith)
            requires
                0 <= k < 8_388_608,
                SCALE == 1_000_000,
        ;
    }
}

/// Every newly created boid is well formed, lies in the domain, heads up and
/// moves with the initial velocity, which is not zero.
pub proof fn law_spawned_boid(state: BoidState)
    requires
        is_spawn_state(state),
    ensures
        state.wf(),
        state.in_domain(),
        state.rotation == Rot2::identity(),
        state.velocity == (Vec2 { x: INITIAL_VELOCITY_X as int, y: INITIAL_VELOCITY_Y as int }),
        !state.velocity.is_zero(),
{
    let (raw_x, raw_y) = choose|raw_x: u32, raw_y: u32| state == #[trigger] spawn_state(raw_x, raw_y);
    lemma_unit_coordinate_in_domain(raw_x);
    lemma_unit_coordinate_in_domain(raw_y);
}

/// Creates the boid that two raw random words stand for.
pub fn spawn_boid(raw_x: u32, raw_y: u32) -> (boid: Boid)
    ensures
        boid@ == spawn_state(raw_x, raw_y),
        is_spawn_state(boid@),
{
    let boid = Boid {
        position: Vector2 { x: coordinate_from_raw(raw_x), y: coordinate_from_raw(raw_y) },
        rotation: Rotation2::identity(),
        velocity: Vector2 { x: INITIAL_VELOCITY_X, y: INITIAL_VELOCITY_Y },
    };
    assert(boid@ == spawn_state(raw_x, raw_y));
    boid
}

/// Maps a raw random word to a coordinate of the domain.
pub fn coordinate_from_raw(raw: u32) -> (c: i64)
    ensures
        c == unit_coordinate(raw),
        -SCALE <= c < SCALE,
{
    proof {
        lemma_unit_coordinate_in_domain(raw);
    }
    let k: i64 = (raw / 256) as i64 - 8_388_608;
    (k * SCALE) / 8_388_608
}

/// Two independent, uniformly distributed 32-bit words from
/// `rand::random`, which draws from the thread-local generator. Nothing is
/// claimed of the values: any pair may come back, and two calls may differ.
/// The generator seeds itself from the operating system on first use and
/// panics if the system has no entropy to give.
#[verifier::external_body]
fn random_pair() -> (raw: (u32, u32)) {
    rand::random::<(u32, u32)>()
}

/// Creates a flock of `count` boids at independent, uniformly random
/// positions of the domain. Returns `None`, creating nothing, when `count`
/// is zero or exceeds `MAX_BOIDS`.
pub fn initialize_flock(count: usize) -> (flock: Option<Vec<Boid>>)
    ensures
        flock is Some <==> 1 <= count <= MAX_BOIDS,
        flock matches Some(boids) ==> {
            &&& boids@.len() == count
            &&& forall|i: int| 0 <= i < count ==> is_spawn_state(#[trigger] flock_states(boids@)[i])
        },
{
    if count == 0 || count > MAX_BOIDS {
        return None;
    }
    let mut boids: Vec<Boid> = Vec::new();
    let mut i: usize = 0;
    while i < count
        invariant
            i <= count,
            boids@.len() == i,
            forall|j: int| 0 <= j < i ==> is_spawn_state(#[trigger] flock_states(boids@)[j]),
        decreases count - i,
    {
        let (raw_x, raw_y) = random_pair();
        let boid = spawn_boid(raw_x, raw_y);
        let ghost before = boids@;
        boids.push(boid);
        assert forall|j: int| 0 <= j < i + 1 implies is_spawn_state(
            #[trigger] flock_states(boids@)[j],
        ) by {
            if j < i {
                assert(flock_states(boids@)[j] == flock_states(before)[j]);
            }
        }
        i += 1;
    }
    Some(boids)
}

/// Creates the initial flock of `NUM_BOIDS` boids.
pub fn initialize_boids() -> (boids: Vec<Boid>)
    ensures
        boids@.len() == NUM_BOIDS,
        forall|i: int| 0 <= i < NUM_BOIDS ==> is_spawn_state(#[trigger] flock_states(boids@)[i]),
{
    initialize_flock(NUM_BOIDS as usize).unwrap()
}

} // verus!
