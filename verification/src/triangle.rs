//! Triangles, edges, the signed-volume orientation predicate, and the
//! edge/triangle crossing logic built on it.

use vstd::prelude::*;
use crate::vec3::{Vec3, Vertex, spec_sub, spec_cross, spec_dot, in_bounds};

verus! {

/// Six times the signed volume of the tetrahedron with base `(a, b, c)` and
/// apex `d`: `((a - d) x (b - d)) . (c - d)`. The factor of six (relative to
/// the geometric volume) leaves every sign unchanged, and skipping the
/// division keeps the value an exact integer.
pub open spec fn spec_signed_volume6(a: Vec3, b: Vec3, c: Vec3, d: Vec3) -> int {
    spec_dot(spec_cross(spec_sub(a, d), spec_sub(b, d)), spec_sub(c, d))
}

/// The sign of `v` as a three-way category: 1, -1, or 0.
pub open spec fn sign(v: int) -> int {
    if v > 0 {
        1
    } else if v < 0 {
        -1
    } else {
        0
    }
}

/// `x` and `y` have strictly opposite signs; a zero matches neither side.
pub open spec fn opposite_signs(x: int, y: int) -> bool {
    sign(x) != sign(y) && sign(x) != 0 && sign(y) != 0
}

/// `x`, `y` and `z` all have the same strict sign; a zero matches neither side.
pub open spec fn same_strict_sign(x: int, y: int, z: int) -> bool {
    sign(x) == sign(y) && sign(y) == sign(z) && sign(x) != 0
}

/// Exact evaluation of six times the signed tetrahedron volume.
pub fn signed_volume6(a: &Vertex, b: &Vertex, c: &Vertex, d: &Vertex) -> (sv: i128)
    ensures
        sv as int == spec_signed_volume6(a@, b@, c@, d@),
{
    a.subtract(d).cross_product(&b.subtract(d)).dot_product(&c.subtract(d))
}

/// The sign of an exactly computed signed volume, as the three-way category
/// that the crossing tests compare.
pub fn sign_of(v: i128) -> (s: i32)
    ensures
        s as int == sign(v as int),
{
    if v > 0 {
        1
    } else if v < 0 {
        -1
    } else {
        0
    }
}

/// A directed line segment between two points.
#[derive(Clone, Copy)]
pub struct Edge {
    pub p0: Vertex,
    pub p1: Vertex,
}

/// The mathematical model of an edge: its two endpoints.
pub ghost struct SegView {
    pub p0: Vec3,
    pub p1: Vec3,
}

impl View for Edge {
    type V = SegView;

    open spec fn view(&self) -> SegView {
        SegView { p0: self.p0@, p1: self.p1@ }
    }
}

/// The segment from `p` to `q`, as a model value.
pub open spec fn seg(p: Vec3, q: Vec3) -> SegView {
    SegView { p0: p, p1: q }
}

impl Edge {
    pub fn new(u: Vertex, v: Vertex) -> (e: Edge)
        ensures
            e@ == seg(u@, v@),
    {
        Edge { p0: u, p1: v }
    }
}

/// The mathematical model of a triangle: its three vertices, in order.
pub ghost struct TriView {
    pub v0: Vec3,
    pub v1: Vec3,
    pub v2: Vec3,
}

/// A triangle: three vertices in input order, plus the three directed edges
/// between consecutive vertices in cyclic order.
pub struct Triangle {
    v0: Vertex,
    v1: Vertex,
    v2: Vertex,
    e0: Edge,
    e1: Edge,
    e2: Edge,
}

impl View for Triangle {
    type V = TriView;

    closed spec fn view(&self) -> TriView {
        TriView { v0: self.v0@, v1: self.v1@, v2: self.v2@ }
    }
}

/// The segment `e` crosses the interior of the triangle `t`: the endpoints of
/// `e` lie strictly on opposite sides of `t`'s plane, and `e` passes on the
/// same strict rotational side of all three of `t`'s edges (inside the
/// infinite triangular prism over `t`). A signed volume of exactly zero
/// satisfies neither strict condition, so grazing contact counts as no
/// crossing.
pub open spec fn spec_edge_crosses(t: TriView, e: SegView) -> bool {
    let sv_p: int = spec_signed_volume6(t.v0, t.v1, t.v2, e.p0);
    let sv_q: int = spec_signed_volume6(t.v0, t.v1, t.v2, e.p1);
    let sv_t0: int = spec_signed_volume6(t.v0, t.v1, e.p0, e.p1);
    let sv_t1: int = spec_signed_volume6(t.v1, t.v2, e.p0, e.p1);
    let sv_t2: int = spec_signed_volume6(t.v2, t.v0, e.p0, e.p1);
    opposite_signs(sv_p, sv_q) && same_strict_sign(sv_t0, sv_t1, sv_t2)
}

/// The triangles `t` and `u` intersect transversally: some edge of `u`
/// crosses `t`, or some edge of `t` crosses `u`.
pub open spec fn spec_intersects(t: TriView, u: TriView) -> bool {
    ||| spec_edge_crosses(t, seg(u.v0, u.v1))
    ||| spec_edge_crosses(t, seg(u.v1, u.v2))
    ||| spec_edge_crosses(t, seg(u.v2, u.v0))
    ||| spec_edge_crosses(u, seg(t.v0, t.v1))
    ||| spec_edge_crosses(u, seg(t.v1, t.v2))
    ||| spec_edge_crosses(u, seg(t.v2, t.v0))
}

impl Triangle {
    /// The stored edges traverse the vertices in the rotational order the
    /// vertices were given in: (v0,v1), (v1,v2), (v2,v0).
    #[verifier::type_invariant]
    spec fn edges_follow_vertices(self) -> bool {
        &&& self.e0@ == seg(self.v0@, self.v1@)
        &&& self.e1@ == seg(self.v1@, self.v2@)
        &&& self.e2@ == seg(self.v2@, self.v0@)
    }

    pub fn new(u: Vertex, v: Vertex, w: Vertex) -> (t: Triangle)
        ensures
            t@ == (TriView { v0: u@, v1: v@, v2: w@ }),
    {
        Triangle {
            v0: u,
            v1: v,
            v2: w,
            e0: Edge::new(u, v),
            e1: Edge::new(v, w),
            e2: Edge::new(w, u),
        }
    }

    /// Orientation-based segment/triangle crossing test: `e` straddles this
    /// triangle's plane strictly, and passes on the same strict side of each
    /// of its three edges.
    pub fn edge_intersect(&self, e: &Edge) -> (crosses: bool)
        ensures
            crosses == spec_edge_crosses(self@, e@),
    {
        proof {
            use_type_invariant(&*self);
        }
        let sv_p: i32 = sign_of(signed_volume6(&self.v0, &self.v1, &self.v2, &e.p0));
        let sv_q: i32 = sign_of(signed_volume6(&self.v0, &self.v1, &self.v2, &e.p1));
        let sv_t0: i32 = sign_of(signed_volume6(&self.e0.p0, &self.e0.p1, &e.p0, &e.p1));
        let sv_t1: i32 = sign_of(signed_volume6(&self.e1.p0, &self.e1.p1, &e.p0, &e.p1));
        let sv_t2: i32 = sign_of(signed_volume6(&self.e2.p0, &self.e2.p1, &e.p0, &e.p1));
        sv_p != sv_q && sv_p != 0 && sv_q != 0 && sv_t0 == sv_t1 && sv_t1 == sv_t2
            && sv_t0 != 0
    }

    /// Transversal triangle/triangle intersection test: tries all six edges,
    /// each against the other triangle, and reports the first crossing found.
    ///
    /// Exactly coplanar triangles never satisfy the strict plane-straddle
    /// test, so coplanar overlap is reported as no intersection: the test is
    /// for transversal crossings. Degenerate (zero-area) triangles are
    /// accepted and produce a deterministic answer.
    pub fn intersect(&self, t: &Triangle) -> (crosses: bool)
        ensures
            crosses == spec_intersects(self@, t@),
    {
        proof {
            use_type_invariant(&*self);
            use_type_invariant(&*t);
        }
        self.edge_intersect(&t.e0) || self.edge_intersect(&t.e1) || self.edge_intersect(&t.e2)
            || t.edge_intersect(&self.e0) || t.edge_intersect(&self.e1)
            || t.edge_intersect(&self.e2)
    }
}

} // verus!
