//! The triangles that stand for the boids on screen.
//!
//! Each boid is drawn as one isosceles triangle, given in the boid's own
//! frame, turned by its heading and moved to its position.

use crate::boid::{flock_states, Boid, BoidState, NUM_VERTS};
use crate::sim::MAX_NEXT_COORDINATE;
use crate::vector::{lemma_apply_within, Vec2, Vector2};
use vstd::prelude::*;

verus! {

/// Largest magnitude of a coordinate of a corner given in a boid's frame.
pub const MAX_LOCAL_COORDINATE: i64 = 1_000_000_000;

/// One vertex of the mesh: a point of the plane as `[x, y]`.
#[derive(Clone, Copy, Debug, PartialEq, Eq)]
pub struct BoidVertex {
    pub position: [i64; 2],
}

impl View for BoidVertex {
    type V = Vec2;

    open spec fn view(&self) -> Vec2 {
        Vec2 { x: self.position[0] as int, y: self.position[1] as int }
    }
}

/// Corner `k` of the triangle in the boid's own frame, its tip pointing up:
/// `(0.02, -0.05)`, `(0, 0.05)` and `(-0.02, -0.05)`.
pub open spec fn triangle_corner(k: int) -> Vec2 {
    if k == 0 {
        Vec2 { x: 20_000, y: -50_000 }
    } else if k == 1 {
        Vec2 { x: 0, y: 50_000 }
    } else {
        Vec2 { x: -20_000, y: -50_000 }
    }
}

/// The point of the plane at which a corner given in the frame of `boid` is
/// drawn: the corner turned by the heading, then moved by the position.
pub open spec fn placed(boid: BoidState, local: Vec2) -> Vec2 {
    boid.rotation.apply(local).plus(boid.position)
}

/// The boid can be drawn: its heading is well formed and its position is one
/// that a tick can produce.
pub open spec fn drawable(boid: BoidState) -> bool {
    boid.rotation.wf() && boid.position.within(MAX_NEXT_COORDINATE as int)
}

/// Every boid of the flock can be drawn.
pub open spec fn flock_drawable(flock: Seq<BoidState>) -> bool {
    forall|i: int| 0 <= i < flock.len() ==> drawable(#[trigger] flock[i])
}

/// The mesh of a flock: for boid `i`, the vertices `3 * i`, `3 * i + 1` and
/// `3 * i + 2` are the three corners of its triangle.
pub open spec fn flock_mesh(flock: Seq<BoidState>) -> Seq<Vec2> {
    Seq::new(
        flock.len() * 3,
        |v: int| placed(flock[v / 3], triangle_corner(v % 3)),
    )
}

/// The views of a sequence of vertices, in order.
pub open spec fn vertex_points(vertices: Seq<BoidVertex>) -> Seq<Vec2> {
    Seq::new(vertices.len(), |v: int| vertices[v]@)
}

impl Boid {
    /// Whether the boid can be drawn.
    pub fn is_drawable(&self) -> (ok: bool)
        ensures
            ok == drawable(self@),
    {
        self.rotation.is_valid() && self.position.is_within(MAX_NEXT_COORDINATE)
    }
}

/// Whether every boid of the flock can be drawn.
pub fn flock_is_drawable(boids: &[Boid]) -> (ok: bool)
    ensures
        ok == flock_drawable(flock_states(boids@)),
{
    let mut i: usize = 0;
    while i < boids.len()
        invariant
            i <= boids.len(),
            forall|j: int| 0 <= j < i ==> drawable(#[trigger] flock_states(boids@)[j]),
        decreases boids.len() - i,
    {
        if !boids[i].is_drawable() {
            assert(!drawable(flock_states(boids@)[i as int]));
            return false;
        }
        i += 1;
    }
    true
}

/// Corner `k` of the triangle in the boid's own frame.
pub fn local_corner(k: usize) -> (corner: Vector2)
    requires
        k < NUM_VERTS,
    ensures
        corner@ == triangle_corner(k as int),
        corner@.within(MAX_LOCAL_COORDINATE as int),
{
    if k == 0 {
        Vector2 { x: 20_000, y: -50_000 }
    } else if k == 1 {
        Vector2 { x: 0, y: 50_000 }
    } else {
        Vector2 { x: -20_000, y: -50_000 }
    }
}

/// Places a corner given in the frame of `boid` in the plane.
pub fn place_vertex(boid: &Boid, local: Vector2) -> (vertex: BoidVertex)
    requires
        drawable(boid@),
        local@.within(MAX_LOCAL_COORDINATE as int),
    ensures
        vertex@ == placed(boid@, local@),
{
    proof {
        lemma_apply_within(boid@.rotation, local@, MAX_LOCAL_COORDINATE as int);
    }
    let turned = boid.rotation.rotate(local);
    let moved = turned.plus(boid.position);
    BoidVertex { position: [moved.x, moved.y] }
}

/// The mesh of the flock: three vertices for each boid, in the order of the
/// boids.
pub fn flock_vertices(boids: &[Boid]) -> (vertices: Vec<BoidVertex>)
    requires
        flock_drawable(flock_states(boids@)),
        boids@.len() * 3 <= usize::MAX,
    ensures
        vertices@.len() == boids@.len() * 3,
        vertex_points(vertices@) == flock_mesh(flock_states(boids@)),
{
    let ghost flock = flock_states(boids@);
    let n = boids.len();
    let mut vertices: Vec<BoidVertex> = Vec::new();
    let mut i: usize = 0;
    while i < n
        invariant
            i <= n,
            n == boids@.len(),
            flock == flock_states(boids@),
            flock_drawable(flock),
            vertices@.len() == i * 3,
            forall|v: int|
                0 <= v < i * 3 ==> (#[trigger] vertices@[v])@ == placed(
                    flock[v / 3],
                    triangle_corner(v % 3),
                ),
        decreases n - i,
    {
        let boid = &boids[i];
        assert(boid@ == flock[i as int]);
        assert(drawable(flock[i as int]));
        let first = place_vertex(boid, local_corner(0));
        let second = place_vertex(boid, local_corner(1));
        let third = place_vertex(boid, local_corner(2));
        vertices.push(first);
        vertices.push(second);
        vertices.push(third);
        i += 1;
    }
    assert(vertex_points(vertices@) =~= flock_mesh(flock));
    vertices
}

} // verus!
