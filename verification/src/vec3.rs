//! Vector algebra primitives: points, difference vectors, cross products and
//! dot products, each with an exact mathematical model.

use vstd::prelude::*;

verus! {

/// Mathematical 3-vector over the unbounded integers; the model that the
/// executable vector types below are specified against.
pub ghost struct Vec3 {
    pub x: int,
    pub y: int,
    pub z: int,
}

/// Component-wise difference `a - b`.
pub open spec fn spec_sub(a: Vec3, b: Vec3) -> Vec3 {
    Vec3 { x: a.x - b.x, y: a.y - b.y, z: a.z - b.z }
}

/// Right-handed cross product `a x b`.
pub open spec fn spec_cross(a: Vec3, b: Vec3) -> Vec3 {
    Vec3 {
        x: a.y * b.z - a.z * b.y,
        y: -(a.x * b.z - a.z * b.x),
        z: a.x * b.y - a.y * b.x,
    }
}

/// Dot product `a . b`.
pub open spec fn spec_dot(a: Vec3, b: Vec3) -> int {
    a.x * b.x + a.y * b.y + a.z * b.z
}

/// Every component of `v` lies in `[-bound, bound]`.
pub open spec fn in_bounds(v: Vec3, bound: int) -> bool {
    &&& -bound <= v.x <= bound
    &&& -bound <= v.y <= bound
    &&& -bound <= v.z <= bound
}

/// A point in 3-space (also used as a position vector). Coordinates are kept
/// narrow enough that every signed volume built from points fits in `i128`
/// with room to spare, so no operation on the way needs a precondition.
#[derive(Clone, Copy)]
pub struct Vertex {
    pub x: i32,
    pub y: i32,
    pub z: i32,
}

impl View for Vertex {
    type V = Vec3;

    open spec fn view(&self) -> Vec3 {
        Vec3 { x: self.x as int, y: self.y as int, z: self.z as int }
    }
}

/// The difference of two points; components span twice the point range.
#[derive(Clone, Copy)]
pub struct DiffVec {
    pub x: i64,
    pub y: i64,
    pub z: i64,
}

impl View for DiffVec {
    type V = Vec3;

    open spec fn view(&self) -> Vec3 {
        Vec3 { x: self.x as int, y: self.y as int, z: self.z as int }
    }
}

/// The cross product of two difference vectors; components are sums of
/// two products of difference components.
#[derive(Clone, Copy)]
pub struct CrossVec {
    pub x: i128,
    pub y: i128,
    pub z: i128,
}

impl View for CrossVec {
    type V = Vec3;

    open spec fn view(&self) -> Vec3 {
        Vec3 { x: self.x as int, y: self.y as int, z: self.z as int }
    }
}

/// A product is bounded by the product of the factors' bounds.
proof fn lemma_mul_bounds(a: int, b: int, ma: int, mb: int) by (nonlinear_arith)
    requires
        0 <= ma,
        0 <= mb,
        -ma <= a <= ma,
        -mb <= b <= mb,
    ensures
        -(ma * mb) <= a * b <= ma * mb,
{
}

impl Vertex {
    pub fn new(x: i32, y: i32, z: i32) -> (v: Vertex)
        ensures
            v@ == (Vec3 { x: x as int, y: y as int, z: z as int }),
    {
        Vertex { x, y, z }
    }

    /// Component-wise difference `self - v`, widened so it cannot overflow.
    pub fn subtract(&self, v: &Vertex) -> (d: DiffVec)
        ensures
            d@ == spec_sub(self@, v@),
            in_bounds(d@, 0x1_0000_0000),
    {
        DiffVec {
            x: self.x as i64 - v.x as i64,
            y: self.y as i64 - v.y as i64,
            z: self.z as i64 - v.z as i64,
        }
    }
}

impl DiffVec {
    /// Right-handed cross product of two difference vectors.
    pub fn cross_product(&self, v: &DiffVec) -> (c: CrossVec)
        requires
            in_bounds(self@, 0x1_0000_0000),
            in_bounds(v@, 0x1_0000_0000),
        ensures
            c@ == spec_cross(self@, v@),
            in_bounds(c@, 0x2_0000_0000_0000_0000),
    {
        proof {
            lemma_mul_bounds(self.x as int, v.y as int, 0x1_0000_0000, 0x1_0000_0000);
            lemma_mul_bounds(self.x as int, v.z as int, 0x1_0000_0000, 0x1_0000_0000);
            lemma_mul_bounds(self.y as int, v.x as int, 0x1_0000_0000, 0x1_0000_0000);
            lemma_mul_bounds(self.y as int, v.z as int, 0x1_0000_0000, 0x1_0000_0000);
            lemma_mul_bounds(self.z as int, v.x as int, 0x1_0000_0000, 0x1_0000_0000);
            lemma_mul_bounds(self.z as int, v.y as int, 0x1_0000_0000, 0x1_0000_0000);
        }
        CrossVec {
            x: (self.y as i128) * (v.z as i128) - (self.z as i128) * (v.y as i128),
            y: -((self.x as i128) * (v.z as i128) - (self.z as i128) * (v.x as i128)),
            z: (self.x as i128) * (v.y as i128) - (self.y as i128) * (v.x as i128),
        }
    }
}

impl CrossVec {
    /// Dot product of a cross-product vector with a difference vector.
    pub fn dot_product(&self, v: &DiffVec) -> (d: i128)
        requires
            in_bounds(self@, 0x2_0000_0000_0000_0000),
            in_bounds(v@, 0x1_0000_0000),
        ensures
            d as int == spec_dot(self@, v@),
    {
        proof {
            lemma_mul_bounds(self.x as int, v.x as int, 0x2_0000_0000_0000_0000, 0x1_0000_0000);
            lemma_mul_bounds(self.y as int, v.y as int, 0x2_0000_0000_0000_0000, 0x1_0000_0000);
            lemma_mul_bounds(self.z as int, v.z as int, 0x2_0000_0000_0000_0000, 0x1_0000_0000);
        }
        self.x * (v.x as i128) + self.y * (v.y as i128) + self.z * (v.z as i128)
    }
}

} // verus!
