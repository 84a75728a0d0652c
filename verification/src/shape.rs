//! The drawable shapes of a vector scene.
//!
//! A scene is an ordered sequence of [`Shape`] values: polylines, polygons,
//! regular polygons and circles, each with an optional fill and stroke.
//! Shapes are immutable once drawn; the canvas owns the order, which is the
//! painting order.

use crate::color::Color;
use crate::fixed::{fx_mul, Fx};
use crate::geom::V2;
use vstd::prelude::*;

verus! {

/// How the end of a stroked line is drawn.
#[derive(Clone, Copy, PartialEq, Eq, Structural, Debug)]
pub enum LineEnd {
    /// The line stops flat at the end point.
    Butt,
    /// The line is rounded off with a half disc.
    Round,
}

/// The pen a shape outline is drawn with: color, width in camera-space
/// units, and end style. A zero width is legal and draws a hairline.
#[derive(Clone, Copy, PartialEq, Eq, Structural, Debug)]
pub struct Stroke {
    pub color: Color,
    pub width: Fx,
    pub line_end: LineEnd,
}

/// An open polyline through its points; never filled.
#[derive(Clone, Debug)]
pub struct Line {
    pub points: Vec<V2>,
    pub stroke: Stroke,
}

/// A closed polygon through its points.
#[derive(Clone, Debug)]
pub struct Polygon {
    pub points: Vec<V2>,
    pub fill: Option<Color>,
    pub stroke: Option<Stroke>,
}

/// A regular polygon, kept symbolic: it expands to a [`Polygon`] through
/// [`crate::geom::regular_polygon_points`] when rendered.
#[derive(Clone, Copy, Debug)]
pub struct RegularPolygon {
    pub center: V2,
    pub sides: usize,
    pub rotation: Fx,
    pub radius: Fx,
    pub fill: Option<Color>,
    pub stroke: Option<Stroke>,
}

/// A circle around a center.
#[derive(Clone, Copy, Debug)]
pub struct Circle {
    pub center: V2,
    pub radius: Fx,
    pub fill: Option<Color>,
    pub stroke: Option<Stroke>,
}

/// One drawable element of a scene.
#[derive(Clone, Debug)]
pub enum Shape {
    Line(Line),
    Polygon(Polygon),
    RegularPolygon(RegularPolygon),
    Circle(Circle),
}

impl RegularPolygon {
    /// The polygon this regular polygon expands to when rendered.
    pub fn as_polygon(&self) -> (p: Polygon)
        ensures
            p.points@ == crate::geom::regular_polygon_spec(
                self.center,
                self.radius,
                self.rotation,
                self.sides as int,
            ),
            p.fill == self.fill,
            p.stroke == self.stroke,
    {
        Polygon {
            points: crate::geom::regular_polygon_points(
                self.center,
                self.radius,
                self.rotation,
                self.sides,
            ),
            fill: self.fill,
            stroke: self.stroke,
        }
    }
}

/// Whether two shapes hold the same drawable content: equal fields, with
/// the point vectors compared by their views.
pub open spec fn shape_like(a: Shape, b: Shape) -> bool {
    match (a, b) {
        (Shape::Line(l1), Shape::Line(l2)) => l1.points@ == l2.points@ && l1.stroke
            == l2.stroke,
        (Shape::Polygon(p1), Shape::Polygon(p2)) => p1.points@ == p2.points@ && p1.fill
            == p2.fill && p1.stroke == p2.stroke,
        (Shape::RegularPolygon(r1), Shape::RegularPolygon(r2)) => r1 == r2,
        (Shape::Circle(c1), Shape::Circle(c2)) => c1 == c2,
        _ => false,
    }
}

/// A point sequence with every point scaled by `k` about the origin.
pub open spec fn points_zoomed(pts: Seq<V2>, k: Fx) -> Seq<V2> {
    pts.map_values(|p: V2| p.scaled(k))
}

/// Whether `b` is `a` with every position and radius scaled by `k` about
/// the camera origin, stroke widths left alone.
pub open spec fn shape_zoomed(a: Shape, b: Shape, k: Fx) -> bool {
    match (a, b) {
        (Shape::Line(l1), Shape::Line(l2)) => l2.points@ == points_zoomed(l1.points@, k)
            && l2.stroke == l1.stroke,
        (Shape::Polygon(p1), Shape::Polygon(p2)) => p2.points@ == points_zoomed(p1.points@, k)
            && p2.fill == p1.fill && p2.stroke == p1.stroke,
        (Shape::RegularPolygon(r1), Shape::RegularPolygon(r2)) => r2.center == r1.center.scaled(
            k,
        ) && r2.sides == r1.sides && r2.rotation == r1.rotation && r2.radius == fx_mul(
            r1.radius,
            k,
        ) && r2.fill == r1.fill && r2.stroke == r1.stroke,
        (Shape::Circle(c1), Shape::Circle(c2)) => c2.center == c1.center.scaled(k) && c2.radius
            == fx_mul(c1.radius, k) && c2.fill == c1.fill && c2.stroke == c1.stroke,
        _ => false,
    }
}

impl Shape {
    /// The shape with every position and radius scaled by `k` about the
    /// camera origin; stroke widths are not rescaled.
    pub fn zoomed(self, k: Fx) -> (r: Shape)
        ensures
            shape_zoomed(self, r, k),
    {
        match self {
            Shape::Line(l) => Shape::Line(
                Line { points: zoom_points(l.points, k), stroke: l.stroke },
            ),
            Shape::Polygon(p) => Shape::Polygon(
                Polygon { points: zoom_points(p.points, k), fill: p.fill, stroke: p.stroke },
            ),
            Shape::RegularPolygon(rp) => Shape::RegularPolygon(
                RegularPolygon {
                    center: rp.center.scaled(k),
                    sides: rp.sides,
                    rotation: rp.rotation,
                    radius: fx_mul(rp.radius, k),
                    fill: rp.fill,
                    stroke: rp.stroke,
                },
            ),
            Shape::Circle(c) => Shape::Circle(
                Circle {
                    center: c.center.scaled(k),
                    radius: fx_mul(c.radius, k),
                    fill: c.fill,
                    stroke: c.stroke,
                },
            ),
        }
    }
}

/// Every point of the vector scaled by `k`.
fn zoom_points(pts: Vec<V2>, k: Fx) -> (r: Vec<V2>)
    ensures
        r@ == points_zoomed(pts@, k),
{
    let mut out: Vec<V2> = Vec::new();
    let mut i: usize = 0;
    while i < pts.len()
        invariant
            i <= pts@.len(),
            out@ == points_zoomed(pts@, k).take(i as int),
        decreases pts@.len() - i,
    {
        out.push(pts[i].scaled(k));
        proof {
            assert(out@ == points_zoomed(pts@, k).take(i as int + 1));
        }
        i = i + 1;
    }
    proof {
        assert(out@ == points_zoomed(pts@, k).take(pts@.len() as int));
        assert(points_zoomed(pts@, k).take(pts@.len() as int) =~= points_zoomed(pts@, k));
    }
    out
}

} // verus!
