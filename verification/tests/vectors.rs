use tri_intersect::vec3::{CrossVec, DiffVec, Vertex};

#[test]
fn test_subtract_componentwise() {
    let a = Vertex::new(5, -3, 7);
    let b = Vertex::new(2, 4, -1);
    let d = a.subtract(&b);
    assert_eq!((d.x, d.y, d.z), (3, -7, 8));
}

#[test]
fn test_subtract_extreme_coordinates() {
    let a = Vertex::new(i32::MAX, i32::MAX, i32::MAX);
    let b = Vertex::new(i32::MIN, i32::MIN, i32::MIN);
    let d = a.subtract(&b);
    let span = i32::MAX as i64 - i32::MIN as i64;
    assert_eq!((d.x, d.y, d.z), (span, span, span));
}

#[test]
fn test_cross_product_axes() {
    // x axis cross y axis gives the z axis, right-handed.
    let x = DiffVec { x: 1, y: 0, z: 0 };
    let y = DiffVec { x: 0, y: 1, z: 0 };
    let c = x.cross_product(&y);
    assert_eq!((c.x, c.y, c.z), (0, 0, 1));
    let c_rev = y.cross_product(&x);
    assert_eq!((c_rev.x, c_rev.y, c_rev.z), (0, 0, -1));
}

#[test]
fn test_cross_product_general() {
    let a = DiffVec { x: 2, y: -1, z: 3 };
    let b = DiffVec { x: 4, y: 5, z: -2 };
    let c = a.cross_product(&b);
    // (a.y*b.z - a.z*b.y, -(a.x*b.z - a.z*b.x), a.x*b.y - a.y*b.x)
    assert_eq!((c.x, c.y, c.z), (-13, 16, 14));
}

#[test]
fn test_dot_product_exact() {
    let c = CrossVec { x: 3, y: -4, z: 5 };
    let d = DiffVec { x: 2, y: 7, z: -1 };
    assert_eq!(c.dot_product(&d), 3 * 2 - 4 * 7 - 5);
}

#[test]
fn test_dot_product_orthogonal() {
    let c = CrossVec { x: 0, y: 0, z: 9 };
    let d = DiffVec { x: 4, y: -6, z: 0 };
    assert_eq!(c.dot_product(&d), 0);
}
