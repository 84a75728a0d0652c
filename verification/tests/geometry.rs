//! Regular polygon generation, including the exact square cases.

use generative_art::fixed::FX_EIGHTH;
use generative_art::geom::{regular_polygon_points, V2};
use generative_art::shape::RegularPolygon;

#[test]
fn square_with_no_rotation_is_exact() {
    let pts = regular_polygon_points(V2::new(0, 0), 65536, 0, 4);
    assert_eq!(pts.len(), 4);
    assert_eq!(pts[0], V2::new(65536, 0));
    assert_eq!(pts[1], V2::new(0, 65536));
    assert_eq!(pts[2], V2::new(-65536, 0));
    assert_eq!(pts[3], V2::new(0, -65536));
}

#[test]
fn square_about_a_center() {
    let pts = regular_polygon_points(V2::new(131072, -65536), 32768, 0, 4);
    assert_eq!(pts[0], V2::new(131072 + 32768, -65536));
    assert_eq!(pts[2], V2::new(131072 - 32768, -65536));
}

#[test]
fn square_rotated_an_eighth_turn() {
    // The same square turned onto its diagonals: every vertex offset is
    // radius * sqrt(1/2) on both axes.
    let pts = regular_polygon_points(V2::new(0, 0), 65536, FX_EIGHTH, 4);
    assert_eq!(pts.len(), 4);
    assert_eq!(pts[0], V2::new(46341, 46341));
    assert_eq!(pts[1], V2::new(-46341, 46341));
    assert_eq!(pts[2], V2::new(-46341, -46341));
    assert_eq!(pts[3], V2::new(46341, -46341));
}

#[test]
fn triangle_has_three_vertices() {
    let pts = regular_polygon_points(V2::new(0, 0), 65536, 0, 3);
    assert_eq!(pts.len(), 3);
    assert_eq!(pts[0], V2::new(65536, 0));
}

#[test]
fn degenerate_polygon_collapses() {
    // A zero radius puts every vertex on the center; the generator hands
    // back the two-point stand-in instead of failing.
    let pts = regular_polygon_points(V2::new(1000, 2000), 0, 0, 4);
    assert_eq!(pts.len(), 2);
    assert_eq!(pts[0], V2::new(1000, 2000));
    assert_eq!(pts[1], V2::new(1001, 2001));
    // No sides at all collapses the same way.
    let pts = regular_polygon_points(V2::new(0, 0), 65536, 0, 0);
    assert_eq!(pts.len(), 2);
}

#[test]
fn regular_polygon_expands_to_its_polygon() {
    let rp = RegularPolygon {
        center: V2::new(0, 0),
        sides: 4,
        rotation: 0,
        radius: 65536,
        fill: None,
        stroke: None,
    };
    let p = rp.as_polygon();
    assert_eq!(p.points, regular_polygon_points(rp.center, rp.radius, rp.rotation, rp.sides));
}

#[test]
fn vector_operations() {
    let a = V2::new(196608, 0);
    let b = V2::new(0, 262144);
    assert_eq!(a.plus(b), V2::new(196608, 262144));
    assert_eq!(a.minus(b), V2::new(196608, -262144));
    // distance of a 3-4-5 triangle: 5.0
    assert_eq!(a.distance(b), 327680);
    assert_eq!(a.scaled(32768), V2::new(98304, 0));
}
