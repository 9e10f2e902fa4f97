//! Laws of the intersection predicate, proved once and for all triangles.

use vstd::prelude::*;
use crate::vec3::{Vec3, spec_sub};
use crate::triangle::{
    TriView, seg, same_strict_sign, spec_edge_crosses, spec_intersects, spec_signed_volume6,
};

verus! {

/// Symmetry: testing `t` against `u` and `u` against `t` give the same
/// answer, since both try the same six edge crossings.
pub proof fn lemma_intersects_symmetric(t: TriView, u: TriView)
    ensures
        spec_intersects(t, u) == spec_intersects(u, t),
{
}

/// Raw form of the triple product `(u x v) . w` with the first two vectors
/// swapped: the product changes sign.
proof fn lemma_triple_swap01(
    ux: int, uy: int, uz: int,
    vx: int, vy: int, vz: int,
    wx: int, wy: int, wz: int,
) by (nonlinear_arith)
    ensures
        (vy * uz - vz * uy) * wx + (-(vx * uz - vz * ux)) * wy + (vx * uy - vy * ux) * wz == -((uy
            * vz - uz * vy) * wx + (-(ux * vz - uz * vx)) * wy + (ux * vy - uy * vx) * wz),
{
}

/// Raw form of the triple product under cyclic rotation of the three vectors:
/// `(v x w) . u == (u x v) . w`. Proved by expanding both sides into the six
/// signed monomials of the determinant.
proof fn lemma_triple_rotate(
    ux: int, uy: int, uz: int,
    vx: int, vy: int, vz: int,
    wx: int, wy: int, wz: int,
)
    ensures
        (vy * wz - vz * wy) * ux + (-(vx * wz - vz * wx)) * uy + (vx * wy - vy * wx) * uz == (uy
            * vz - uz * vy) * wx + (-(ux * vz - uz * vx)) * wy + (ux * vy - uy * vx) * wz,
{
    assert((vy * wz - vz * wy) * ux == ux * vy * wz - ux * vz * wy) by (nonlinear_arith);
    assert((-(vx * wz - vz * wx)) * uy == uy * vz * wx - uy * vx * wz) by (nonlinear_arith);
    assert((vx * wy - vy * wx) * uz == uz * vx * wy - uz * vy * wx) by (nonlinear_arith);
    assert((uy * vz - uz * vy) * wx == uy * vz * wx - uz * vy * wx) by (nonlinear_arith);
    assert((-(ux * vz - uz * vx)) * wy == uz * vx * wy - ux * vz * wy) by (nonlinear_arith);
    assert((ux * vy - uy * vx) * wz == ux * vy * wz - uy * vx * wz) by (nonlinear_arith);
}

/// Raw form of moving the apex of the tetrahedron from `d` to `c`: with
/// `u = a - d`, `v = b - d`, `w = c - d`, the volume built on the differences
/// `u - w`, `v - w`, `-w` is the negation of the one built on `u`, `v`, `w`.
/// Proved by expanding both sides into signed monomials.
proof fn lemma_triple_apex(
    ux: int, uy: int, uz: int,
    vx: int, vy: int, vz: int,
    wx: int, wy: int, wz: int,
)
    ensures
        ((uy - wy) * (vz - wz) - (uz - wz) * (vy - wy)) * (-wx) + (-((ux - wx) * (vz - wz) - (uz
            - wz) * (vx - wx))) * (-wy) + ((ux - wx) * (vy - wy) - (uy - wy) * (vx - wx)) * (-wz)
            == -((uy * vz - uz * vy) * wx + (-(ux * vz - uz * vx)) * wy + (ux * vy - uy * vx)
            * wz),
{
    let g1: int = (uy - wy) * (vz - wz) - (uz - wz) * (vy - wy);
    let g2: int = (ux - wx) * (vz - wz) - (uz - wz) * (vx - wx);
    let g3: int = (ux - wx) * (vy - wy) - (uy - wy) * (vx - wx);
    assert((uy - wy) * (vz - wz) - (uz - wz) * (vy - wy) == uy * vz - uy * wz - vz * wy - uz * vy
        + uz * wy + vy * wz) by (nonlinear_arith);
    assert(g1 * (-wx) == -((uy * vz) * wx) + (uy * wz) * wx + (vz * wy) * wx + (uz * vy) * wx - (uz
        * wy) * wx - (vy * wz) * wx) by (nonlinear_arith)
        requires
            g1 == uy * vz - uy * wz - vz * wy - uz * vy + uz * wy + vy * wz,
    ;
    assert((uy * wz) * wx == uy * wx * wz) by (nonlinear_arith);
    assert((vz * wy) * wx == vz * wx * wy) by (nonlinear_arith);
    assert((uz * wy) * wx == uz * wx * wy) by (nonlinear_arith);
    assert((vy * wz) * wx == vy * wx * wz) by (nonlinear_arith);
    assert((ux - wx) * (vz - wz) - (uz - wz) * (vx - wx) == ux * vz - ux * wz - vz * wx - uz * vx
        + uz * wx + vx * wz) by (nonlinear_arith);
    assert((-g2) * (-wy) == (ux * vz) * wy - (ux * wz) * wy - (vz * wx) * wy - (uz * vx) * wy + (uz
        * wx) * wy + (vx * wz) * wy) by (nonlinear_arith)
        requires
            g2 == ux * vz - ux * wz - vz * wx - uz * vx + uz * wx + vx * wz,
    ;
    assert((ux * wz) * wy == ux * wy * wz) by (nonlinear_arith);
    assert((vx * wz) * wy == vx * wy * wz) by (nonlinear_arith);
    assert((ux - wx) * (vy - wy) - (uy - wy) * (vx - wx) == ux * vy - ux * wy - vy * wx - uy * vx
        + uy * wx + vx * wy) by (nonlinear_arith);
    assert(g3 * (-wz) == -(ux * vy * wz) + ux * wy * wz + vy * wx * wz + uy * vx * wz - uy * wx
        * wz - vx * wy * wz) by (nonlinear_arith)
        requires
            g3 == ux * vy - ux * wy - vy * wx - uy * vx + uy * wx + vx * wy,
    ;
    assert((uy * vz - uz * vy) * wx == uy * vz * wx - uz * vy * wx) by (nonlinear_arith);
    assert((-(ux * vz - uz * vx)) * wy == uz * vx * wy - ux * vz * wy) by (nonlinear_arith);
    assert((ux * vy - uy * vx) * wz == ux * vy * wz - uy * vx * wz) by (nonlinear_arith);
}

/// Swapping the first two points of the tetrahedron flips its orientation.
proof fn lemma_sv6_swap01(a: Vec3, b: Vec3, c: Vec3, d: Vec3)
    ensures
        spec_signed_volume6(b, a, c, d) == -spec_signed_volume6(a, b, c, d),
{
    let u: Vec3 = spec_sub(a, d);
    let v: Vec3 = spec_sub(b, d);
    let w: Vec3 = spec_sub(c, d);
    lemma_triple_swap01(u.x, u.y, u.z, v.x, v.y, v.z, w.x, w.y, w.z);
}

/// Rotating the three base points of the tetrahedron keeps its orientation.
proof fn lemma_sv6_rotate(a: Vec3, b: Vec3, c: Vec3, d: Vec3)
    ensures
        spec_signed_volume6(b, c, a, d) == spec_signed_volume6(a, b, c, d),
{
    let u: Vec3 = spec_sub(a, d);
    let v: Vec3 = spec_sub(b, d);
    let w: Vec3 = spec_sub(c, d);
    lemma_triple_rotate(u.x, u.y, u.z, v.x, v.y, v.z, w.x, w.y, w.z);
}

/// Swapping the last two points of the tetrahedron flips its orientation.
proof fn lemma_sv6_swap23(a: Vec3, b: Vec3, c: Vec3, d: Vec3)
    ensures
        spec_signed_volume6(a, b, d, c) == -spec_signed_volume6(a, b, c, d),
{
    let u: Vec3 = spec_sub(a, d);
    let v: Vec3 = spec_sub(b, d);
    let w: Vec3 = spec_sub(c, d);
    assert(spec_sub(a, c) == (Vec3 { x: u.x - w.x, y: u.y - w.y, z: u.z - w.z }));
    assert(spec_sub(b, c) == (Vec3 { x: v.x - w.x, y: v.y - w.y, z: v.z - w.z }));
    assert(spec_sub(d, c) == (Vec3 { x: -w.x, y: -w.y, z: -w.z }));
    lemma_triple_apex(u.x, u.y, u.z, v.x, v.y, v.z, w.x, w.y, w.z);
}

/// Reversing the tested segment does not change whether a crossing is reported.
proof fn lemma_edge_crosses_flip(t: TriView, p: Vec3, q: Vec3)
    ensures
        spec_edge_crosses(t, seg(q, p)) == spec_edge_crosses(t, seg(p, q)),
{
    lemma_sv6_swap23(t.v0, t.v1, p, q);
    lemma_sv6_swap23(t.v1, t.v2, p, q);
    lemma_sv6_swap23(t.v2, t.v0, p, q);
}

/// Swapping the first two vertices of the base triangle does not change whether
/// a crossing is reported: every signed volume flips its sign at once.
proof fn lemma_edge_crosses_swap01(t: TriView, p: Vec3, q: Vec3)
    ensures
        spec_edge_crosses((TriView { v0: t.v1, v1: t.v0, v2: t.v2 }), seg(p, q))
            == spec_edge_crosses(t, seg(p, q)),
{
    lemma_sv6_swap01(t.v0, t.v1, t.v2, p);
    lemma_sv6_swap01(t.v0, t.v1, t.v2, q);
    lemma_sv6_swap01(t.v0, t.v1, p, q);
    lemma_sv6_swap01(t.v2, t.v0, p, q);
    lemma_sv6_swap01(t.v1, t.v2, p, q);
}

/// Rotating the vertices of the base triangle does not change whether a
/// crossing is reported: the plane volumes stay put and the edge volumes permute.
proof fn lemma_edge_crosses_rotate(t: TriView, p: Vec3, q: Vec3)
    ensures
        spec_edge_crosses((TriView { v0: t.v1, v1: t.v2, v2: t.v0 }), seg(p, q))
            == spec_edge_crosses(t, seg(p, q)),
{
    lemma_sv6_rotate(t.v0, t.v1, t.v2, p);
    lemma_sv6_rotate(t.v0, t.v1, t.v2, q);
}

/// Swapping the first two vertices of `t` leaves the intersection answer
/// against any `u` unchanged.
proof fn lemma_intersects_swap01(t: TriView, u: TriView)
    ensures
        spec_intersects((TriView { v0: t.v1, v1: t.v0, v2: t.v2 }), u) == spec_intersects(t, u),
{
    lemma_edge_crosses_swap01(t, u.v0, u.v1);
    lemma_edge_crosses_swap01(t, u.v1, u.v2);
    lemma_edge_crosses_swap01(t, u.v2, u.v0);
    lemma_edge_crosses_flip(u, t.v0, t.v1);
    lemma_edge_crosses_flip(u, t.v2, t.v0);
    lemma_edge_crosses_flip(u, t.v1, t.v2);
}

/// Rotating the vertices of `t` leaves the intersection answer against any
/// `u` unchanged.
proof fn lemma_intersects_rotate(t: TriView, u: TriView)
    ensures
        spec_intersects((TriView { v0: t.v1, v1: t.v2, v2: t.v0 }), u) == spec_intersects(t, u),
{
    lemma_edge_crosses_rotate(t, u.v0, u.v1);
    lemma_edge_crosses_rotate(t, u.v1, u.v2);
    lemma_edge_crosses_rotate(t, u.v2, u.v0);
}

/// `p` lists the same three vertices as `t`, in some order.
pub open spec fn same_vertices(t: TriView, p: TriView) -> bool {
    ||| p == t
    ||| p == (TriView { v0: t.v0, v1: t.v2, v2: t.v1 })
    ||| p == (TriView { v0: t.v1, v1: t.v0, v2: t.v2 })
    ||| p == (TriView { v0: t.v1, v1: t.v2, v2: t.v0 })
    ||| p == (TriView { v0: t.v2, v1: t.v0, v2: t.v1 })
    ||| p == (TriView { v0: t.v2, v1: t.v1, v2: t.v0 })
}

/// Relabeling invariance: permuting a triangle's three vertices (which also
/// permutes and possibly reverses its derived edges) does not change the
/// intersection answer against any fixed other triangle.
pub proof fn lemma_intersects_vertex_relabel(t: TriView, p: TriView, u: TriView)
    requires
        same_vertices(t, p),
    ensures
        spec_intersects(p, u) == spec_intersects(t, u),
{
    let r1: TriView = TriView { v0: t.v1, v1: t.v2, v2: t.v0 };
    let s: TriView = TriView { v0: t.v1, v1: t.v0, v2: t.v2 };
    lemma_intersects_rotate(t, u);
    lemma_intersects_rotate(r1, u);
    lemma_intersects_swap01(t, u);
    lemma_intersects_swap01(r1, u);
    lemma_intersects_rotate(s, u);
}

/// Plane separation: when each triangle's three vertices lie strictly on one
/// side of the plane spanned by the other triangle, no intersection is
/// reported; no segment then straddles either plane.
pub proof fn lemma_separated_by_planes(t: TriView, u: TriView)
    requires
        same_strict_sign(
            spec_signed_volume6(t.v0, t.v1, t.v2, u.v0),
            spec_signed_volume6(t.v0, t.v1, t.v2, u.v1),
            spec_signed_volume6(t.v0, t.v1, t.v2, u.v2),
        ),
        same_strict_sign(
            spec_signed_volume6(u.v0, u.v1, u.v2, t.v0),
            spec_signed_volume6(u.v0, u.v1, u.v2, t.v1),
            spec_signed_volume6(u.v0, u.v1, u.v2, t.v2),
        ),
    ensures
        !spec_intersects(t, u),
{
}

/// Exact coplanarity: when every vertex of each triangle lies exactly in the
/// plane spanned by the other (all six point/plane signed volumes are zero),
/// no intersection is reported, overlapping or not: the predicate detects
/// transversal crossings only, and a zero signed volume satisfies neither
/// strict sign condition.
pub proof fn lemma_coplanar_reports_no_intersection(t: TriView, u: TriView)
    requires
        spec_signed_volume6(t.v0, t.v1, t.v2, u.v0) == 0,
        spec_signed_volume6(t.v0, t.v1, t.v2, u.v1) == 0,
        spec_signed_volume6(t.v0, t.v1, t.v2, u.v2) == 0,
        spec_signed_volume6(u.v0, u.v1, u.v2, t.v0) == 0,
        spec_signed_volume6(u.v0, u.v1, u.v2, t.v1) == 0,
        spec_signed_volume6(u.v0, u.v1, u.v2, t.v2) == 0,
    ensures
        !spec_intersects(t, u),
{
}

} // verus!
