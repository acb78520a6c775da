//! Plane vectors and rotations in fixed-point coordinates.
//!
//! `Vec2` and `Rot2` are the mathematical values that contracts speak of;
//! `Vector2` and `Rotation2` are their 64-bit carriers.

use crate::fixed::{
    integer_sqrt, isqrt, lemma_integer_sqrt_dominates, lemma_product_bound,
    lemma_trunc_div_between, lemma_trunc_div_bound, magnitude, mul_scaled, scaled_product,
    trunc_div, widening_product, SCALE,
};
use vstd::prelude::*;

verus! {

/// A vector of the plane with unbounded integer components.
pub struct Vec2 {
    pub x: int,
    pub y: int,
}

impl Vec2 {
    pub open spec fn zero() -> Vec2 {
        Vec2 { x: 0, y: 0 }
    }

    pub open spec fn is_zero(self) -> bool {
        self.x == 0 && self.y == 0
    }

    pub open spec fn plus(self, other: Vec2) -> Vec2 {
        Vec2 { x: self.x + other.x, y: self.y + other.y }
    }

    pub open spec fn minus(self, other: Vec2) -> Vec2 {
        Vec2 { x: self.x - other.x, y: self.y - other.y }
    }

    /// Both components multiplied by the fixed-point factor `w`.
    pub open spec fn scaled(self, w: int) -> Vec2 {
        Vec2 { x: scaled_product(self.x, w), y: scaled_product(self.y, w) }
    }

    /// Both components divided by the positive integer `d`.
    pub open spec fn divided(self, d: int) -> Vec2 {
        Vec2 { x: trunc_div(self.x, d), y: trunc_div(self.y, d) }
    }

    /// Squared Euclidean length, in squared stored units.
    pub open spec fn norm_squared(self) -> int {
        self.x * self.x + self.y * self.y
    }

    /// Euclidean length, rounded down to a whole stored unit.
    pub open spec fn length(self) -> int {
        integer_sqrt(self.norm_squared())
    }

    /// The vector of the same direction whose length is `speed`; the zero
    /// vector, which has no direction, is left as it is.
    pub open spec fn rescaled(self, speed: int) -> Vec2 {
        if self.is_zero() {
            self
        } else {
            Vec2 {
                x: trunc_div(self.x * speed, self.length()),
                y: trunc_div(self.y * speed, self.length()),
            }
        }
    }

    /// Neither component exceeds `limit` in magnitude.
    pub open spec fn within(self, limit: int) -> bool {
        magnitude(self.x) <= limit && magnitude(self.y) <= limit
    }

    /// Both components lie between `low` and `high`.
    pub open spec fn between(self, low: int, high: int) -> bool {
        low <= self.x <= high && low <= self.y <= high
    }

    /// Both components fit a signed 64-bit integer.
    pub open spec fn representable(self) -> bool {
        self.between(i64::MIN as int, i64::MAX as int)
    }
}

/// A rotation of the plane, held as the cosine and sine of its angle in
/// fixed point.
pub struct Rot2 {
    pub cos: int,
    pub sin: int,
}

impl Rot2 {
    /// The rotation by angle zero.
    pub open spec fn identity() -> Rot2 {
        Rot2 { cos: SCALE as int, sin: 0 }
    }

    /// The rotation that turns the up direction `(0, 1)` onto the direction of
    /// `v`, or `fallback` where `v` is the zero vector.
    pub open spec fn facing(v: Vec2, fallback: Rot2) -> Rot2 {
        if v.is_zero() {
            fallback
        } else {
            let unit = v.rescaled(SCALE as int);
            Rot2 { cos: unit.y, sin: -unit.x }
        }
    }

    /// The image of `v` under this rotation.
    pub open spec fn apply(self, v: Vec2) -> Vec2 {
        Vec2 {
            x: trunc_div(self.cos * v.x - self.sin * v.y, SCALE as int),
            y: trunc_div(self.sin * v.x + self.cos * v.y, SCALE as int),
        }
    }

    /// Cosine and sine both lie between -1 and 1.
    pub open spec fn wf(self) -> bool {
        magnitude(self.cos) <= SCALE && magnitude(self.sin) <= SCALE
    }
}

/// The sum of the first `count` vectors of a sequence.
pub open spec fn vector_sum(vectors: Seq<Vec2>, count: int) -> Vec2
    decreases count,
{
    if count <= 0 {
        Vec2::zero()
    } else {
        vector_sum(vectors, count - 1).plus(vectors[count - 1])
    }
}

/// The mean of a non-empty sequence of vectors, each component rounded
/// toward zero.
pub open spec fn vector_mean(vectors: Seq<Vec2>) -> Vec2 {
    vector_sum(vectors, vectors.len() as int).divided(vectors.len() as int)
}

/// Every vector of the sequence has both components between `low` and `high`.
pub open spec fn all_between(vectors: Seq<Vec2>, low: int, high: int) -> bool {
    forall|i: int| 0 <= i < vectors.len() ==> (#[trigger] vectors[i]).between(low, high)
}

/// A sum of `count` vectors between `low` and `high` lies between
/// `count * low` and `count * high`.
pub proof fn lemma_vector_sum_between(vectors: Seq<Vec2>, count: int, low: int, high: int)
    requires
        0 <= count <= vectors.len(),
        all_between(vectors, low, high),
    ensures
        vector_sum(vectors, count).between(count * low, count * high),
    decreases count,
{
    if count > 0 {
        lemma_vector_sum_between(vectors, count - 1, low, high);
        assert(vectors[count - 1].between(low, high));
        assert(count * low == (count - 1) * low + low) by (nonlinear_arith);
        assert(count * high == (count - 1) * high + high) by (nonlinear_arith);
    } else {
        assert(count * low == 0 && count * high == 0) by (nonlinear_arith)
            requires
                count == 0,
        ;
    }
}

/// The mean of vectors between `low` and `high` lies between `low` and `high`.
pub proof fn lemma_vector_mean_between(vectors: Seq<Vec2>, low: int, high: int)
    requires
        vectors.len() > 0,
        low <= 0 <= high,
        all_between(vectors, low, high),
    ensures
        vector_mean(vectors).between(low, high),
{
    let n = vectors.len() as int;
    lemma_vector_sum_between(vectors, n, low, high);
    let sum = vector_sum(vectors, n);
    assert(n * low == low * n && n * high == high * n) by (nonlinear_arith);
    lemma_trunc_div_between(sum.x, n, low, high);
    lemma_trunc_div_between(sum.y, n, low, high);
}

/// Rescaling keeps each component within the target length, and gives the
/// zero vector only for the zero vector or a zero target.
pub proof fn lemma_rescaled_within(v: Vec2, speed: int)
    requires
        speed >= 0,
    ensures
        v.rescaled(speed).within(speed),
        !v.is_zero() ==> v.length() > 0,
{
    if !v.is_zero() {
        lemma_integer_sqrt_dominates(v.x, v.y);
        let len = v.length();
        lemma_product_bound(v.x, speed, len, speed);
        lemma_product_bound(v.y, speed, len, speed);
        assert(len * speed == speed * len) by (nonlinear_arith);
        lemma_trunc_div_bound(v.x * speed, len, speed);
        lemma_trunc_div_bound(v.y * speed, len, speed);
    }
}

/// A heading derived from a vector is well formed whenever the fallback is.
pub proof fn lemma_facing_wf(v: Vec2, fallback: Rot2)
    requires
        fallback.wf(),
    ensures
        Rot2::facing(v, fallback).wf(),
{
    lemma_rescaled_within(v, SCALE as int);
}

/// A well-formed rotation at most doubles the largest component.
pub proof fn lemma_apply_within(r: Rot2, v: Vec2, limit: int)
    requires
        r.wf(),
        limit >= 0,
        v.within(limit),
    ensures
        r.apply(v).within(2 * limit),
{
    let s = SCALE as int;
    lemma_product_bound(r.cos, v.x, s, limit);
    lemma_product_bound(r.sin, v.y, s, limit);
    lemma_product_bound(r.sin, v.x, s, limit);
    lemma_product_bound(r.cos, v.y, s, limit);
    assert(2 * (s * limit) == (2 * limit) * s) by (nonlinear_arith);
    lemma_trunc_div_bound(r.cos * v.x - r.sin * v.y, s, 2 * limit);
    lemma_trunc_div_bound(r.sin * v.x + r.cos * v.y, s, 2 * limit);
}

/// A vector of the plane with 64-bit fixed-point components.
#[derive(Clone, Copy, Debug, PartialEq, Eq)]
pub struct Vector2 {
    pub x: i64,
    pub y: i64,
}

impl View for Vector2 {
    type V = Vec2;

    open spec fn view(&self) -> Vec2 {
        Vec2 { x: self.x as int, y: self.y as int }
    }
}

impl Vector2 {
    pub fn new(x: i64, y: i64) -> (v: Vector2)
        ensures
            v.x == x,
            v.y == y,
    {
        Vector2 { x, y }
    }

    pub fn zero() -> (v: Vector2)
        ensures
            v@ == Vec2::zero(),
    {
        Vector2 { x: 0, y: 0 }
    }

    /// Whether neither component exceeds `limit` in magnitude.
    pub fn is_within(&self, limit: i64) -> (ok: bool)
        requires
            limit >= 0,
        ensures
            ok == self@.within(limit as int),
    {
        -limit <= self.x && self.x <= limit && -limit <= self.y && self.y <= limit
    }

    pub fn plus(self, other: Vector2) -> (sum: Vector2)
        requires
            self@.plus(other@).representable(),
        ensures
            sum@ == self@.plus(other@),
    {
        Vector2 { x: self.x + other.x, y: self.y + other.y }
    }

    pub fn minus(self, other: Vector2) -> (difference: Vector2)
        requires
            self@.minus(other@).representable(),
        ensures
            difference@ == self@.minus(other@),
    {
        Vector2 { x: self.x - other.x, y: self.y - other.y }
    }

    /// Multiplies both components by the fixed-point factor `w`.
    pub fn scaled(self, w: i64) -> (product: Vector2)
        requires
            self@.scaled(w as int).representable(),
        ensures
            product@ == self@.scaled(w as int),
    {
        Vector2 { x: mul_scaled(self.x, w), y: mul_scaled(self.y, w) }
    }

    /// Squared Euclidean length.
    pub fn norm_squared(self) -> (n: u128)
        ensures
            n == self@.norm_squared(),
    {
        let xx: i128 = widening_product(self.x, self.x);
        let yy: i128 = widening_product(self.y, self.y);
        proof {
            let limit = 0x8000_0000_0000_0000int;
            lemma_product_bound(self.x as int, self.x as int, limit, limit);
            lemma_product_bound(self.y as int, self.y as int, limit, limit);
            assert(self.x * self.x >= 0 && self.y * self.y >= 0) by (nonlinear_arith);
            assert(limit * limit == 0x4000_0000_0000_0000_0000_0000_0000_0000int)
                by (nonlinear_arith)
                requires
                    limit == 0x8000_0000_0000_0000int,
            ;
        }
        (xx as u128) + (yy as u128)
    }

    /// Euclidean length, rounded down.
    pub fn length(self) -> (len: u64)
        ensures
            len == self@.length(),
            len == 0 <==> self@.is_zero(),
            magnitude(self.x as int) <= len,
            magnitude(self.y as int) <= len,
    {
        proof {
            lemma_integer_sqrt_dominates(self.x as int, self.y as int);
        }
        isqrt(self.norm_squared())
    }

    /// Stretches or shrinks the vector to length `speed`, keeping its
    /// direction; the zero vector is returned unchanged.
    pub fn rescaled(self, speed: i64) -> (v: Vector2)
        requires
            speed >= 0,
        ensures
            v@ == self@.rescaled(speed as int),
            v@.within(speed as int),
    {
        let len = self.length();
        if len == 0 {
            return self;
        }
        proof {
            lemma_rescaled_within(self@, speed as int);
        }
        let x: i128 = widening_product(self.x, speed) / (len as i128);
        let y: i128 = widening_product(self.y, speed) / (len as i128);
        Vector2 { x: x as i64, y: y as i64 }
    }
}

/// A rotation of the plane with 64-bit fixed-point cosine and sine.
#[derive(Clone, Copy, Debug, PartialEq, Eq)]
pub struct Rotation2 {
    pub cos: i64,
    pub sin: i64,
}

impl View for Rotation2 {
    type V = Rot2;

    open spec fn view(&self) -> Rot2 {
        Rot2 { cos: self.cos as int, sin: self.sin as int }
    }
}

impl Rotation2 {
    /// The rotation by angle zero.
    pub fn identity() -> (r: Rotation2)
        ensures
            r@ == Rot2::identity(),
            r@.wf(),
    {
        Rotation2 { cos: SCALE, sin: 0 }
    }

    /// Whether cosine and sine both lie between -1 and 1.
    pub fn is_valid(&self) -> (ok: bool)
        ensures
            ok == self@.wf(),
    {
        -SCALE <= self.cos && self.cos <= SCALE && -SCALE <= self.sin && self.sin <= SCALE
    }

    /// The rotation that turns the up direction `(0, 1)` onto the direction of
    /// `v`; `fallback` where `v` is zero and has no direction.
    pub fn facing(v: Vector2, fallback: Rotation2) -> (r: Rotation2)
        ensures
            r@ == Rot2::facing(v@, fallback@),
            fallback@.wf() ==> r@.wf(),
    {
        if v.x == 0 && v.y == 0 {
            return fallback;
        }
        let unit = v.rescaled(SCALE);
        Rotation2 { cos: unit.y, sin: -unit.x }
    }

    /// Rotates `v` about the origin.
    pub fn rotate(&self, v: Vector2) -> (image: Vector2)
        requires
            self@.wf(),
            self@.apply(v@).representable(),
        ensures
            image@ == self@.apply(v@),
    {
        proof {
            let s = SCALE as int;
            let limit = 0x8000_0000_0000_0000int;
            lemma_product_bound(self.cos as int, v.x as int, s, limit);
            lemma_product_bound(self.sin as int, v.y as int, s, limit);
            lemma_product_bound(self.sin as int, v.x as int, s, limit);
            lemma_product_bound(self.cos as int, v.y as int, s, limit);
        }
        let x: i128 = (widening_product(self.cos, v.x) - widening_product(self.sin, v.y)) / (
        SCALE as i128);
        let y: i128 = (widening_product(self.sin, v.x) + widening_product(self.cos, v.y)) / (
        SCALE as i128);
        Vector2 { x: x as i64, y: y as i64 }
    }
}

} // verus!
