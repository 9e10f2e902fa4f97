use tri_intersect::triangle::{signed_volume6, Edge, Triangle};
use tri_intersect::vec3::Vertex;

fn tri(a: [i32; 3], b: [i32; 3], c: [i32; 3]) -> Triangle {
    Triangle::new(
        Vertex::new(a[0], a[1], a[2]),
        Vertex::new(b[0], b[1], b[2]),
        Vertex::new(c[0], c[1], c[2]),
    )
}

#[test]
fn test_disjoint_separated() {
    let t1 = tri([0, 0, 0], [1, 0, 0], [0, 1, 0]);
    let t2 = tri([10, 10, 10], [11, 10, 10], [10, 11, 10]);
    assert!(!t1.intersect(&t2));
    assert!(!t2.intersect(&t1));
}

#[test]
fn test_clear_crossing() {
    let t1 = tri([0, 0, 0], [2, 0, 0], [0, 2, 0]);
    let t2 = tri([1, -1, -1], [1, -1, 1], [1, 1, 0]);
    assert!(t1.intersect(&t2));
}

#[test]
fn test_intersect_symmetric() {
    let t1 = tri([0, 0, 0], [2, 0, 0], [0, 2, 0]);
    let t2 = tri([1, -1, -1], [1, -1, 1], [1, 1, 0]);
    assert_eq!(t1.intersect(&t2), t2.intersect(&t1));
    let t3 = tri([10, 10, 10], [11, 10, 10], [10, 11, 10]);
    assert_eq!(t1.intersect(&t3), t3.intersect(&t1));
}

#[test]
fn test_vertex_relabeling() {
    let vs = [[0, 0, 0], [2, 0, 0], [0, 2, 0]];
    let t2 = tri([1, -1, -1], [1, -1, 1], [1, 1, 0]);
    let orders = [
        [0, 1, 2],
        [0, 2, 1],
        [1, 0, 2],
        [1, 2, 0],
        [2, 0, 1],
        [2, 1, 0],
    ];
    let expected = tri(vs[0], vs[1], vs[2]).intersect(&t2);
    assert!(expected);
    for o in orders {
        let p = tri(vs[o[0]], vs[o[1]], vs[o[2]]);
        assert_eq!(p.intersect(&t2), expected);
        assert_eq!(t2.intersect(&p), expected);
    }
}

#[test]
fn test_coplanar_non_overlapping() {
    // Both triangles lie in the plane z = 0 and are far apart; the strict
    // sign tests report no intersection.
    let t1 = tri([0, 0, 0], [4, 0, 0], [0, 4, 0]);
    let t2 = tri([10, 10, 0], [11, 10, 0], [10, 11, 0]);
    assert!(!t1.intersect(&t2));
}

#[test]
fn test_coplanar_overlapping_reports_false() {
    // Documented boundary behavior: the predicate detects transversal
    // crossings only, so even overlapping coplanar triangles report false.
    let t1 = tri([0, 0, 0], [4, 0, 0], [0, 4, 0]);
    let t2 = tri([1, 1, 0], [2, 1, 0], [1, 2, 0]);
    assert!(!t1.intersect(&t2));
    assert!(!t2.intersect(&t1));
}

#[test]
fn test_shared_vertex() {
    // The triangles touch at the origin only; the signed volumes there are
    // exactly zero, which satisfies neither strict sign condition.
    let t1 = tri([0, 0, 0], [1, 0, 0], [0, 1, 0]);
    let t2 = tri([0, 0, 0], [-1, 0, 1], [0, -1, 1]);
    assert!(!t1.intersect(&t2));
    assert!(!t2.intersect(&t1));
}

#[test]
fn test_degenerate_triangle() {
    // A zero-area triangle (repeated vertex) still gets a deterministic
    // boolean answer.
    let degenerate = tri([0, 0, 0], [0, 0, 0], [1, 1, 1]);
    let t2 = tri([1, -1, -1], [1, -1, 1], [1, 1, 0]);
    let first = degenerate.intersect(&t2);
    let second = degenerate.intersect(&t2);
    assert_eq!(first, second);
    assert_eq!(t2.intersect(&degenerate), first);
    assert!(!first);
}

#[test]
fn test_edge_intersect_through_interior() {
    let t1 = tri([0, 0, 0], [4, 0, 0], [0, 4, 0]);
    let crossing = Edge::new(Vertex::new(1, 1, -1), Vertex::new(1, 1, 1));
    assert!(t1.edge_intersect(&crossing));
}

#[test]
fn test_edge_intersect_endpoint_on_plane() {
    // One endpoint lies exactly in the triangle's plane: the strict
    // plane-straddle test fails, so no crossing is reported.
    let t1 = tri([0, 0, 0], [4, 0, 0], [0, 4, 0]);
    let grazing = Edge::new(Vertex::new(1, 1, 0), Vertex::new(1, 1, 2));
    assert!(!t1.edge_intersect(&grazing));
}

#[test]
fn test_edge_intersect_outside_triangle() {
    // The segment straddles the plane strictly but pierces it outside the
    // triangle.
    let t1 = tri([0, 0, 0], [4, 0, 0], [0, 4, 0]);
    let outside = Edge::new(Vertex::new(10, 10, -1), Vertex::new(10, 10, 1));
    assert!(!t1.edge_intersect(&outside));
}

#[test]
fn test_signed_volume_unit_tetrahedron() {
    let a = Vertex::new(0, 0, 0);
    let b = Vertex::new(1, 0, 0);
    let c = Vertex::new(0, 1, 0);
    let d = Vertex::new(0, 0, 1);
    assert_eq!(signed_volume6(&a, &b, &c, &d), -1);
    // Swapping the first two base points flips the orientation.
    assert_eq!(signed_volume6(&b, &a, &c, &d), 1);
}

#[test]
fn test_signed_volume_coplanar_is_zero() {
    let a = Vertex::new(0, 0, 0);
    let b = Vertex::new(3, 0, 0);
    let c = Vertex::new(0, 3, 0);
    let d = Vertex::new(7, -5, 0);
    assert_eq!(signed_volume6(&a, &b, &c, &d), 0);
}
