//! The vector canvas: an insertion-ordered scene of shapes.

use crate::color::Color;
use crate::fixed::Fx;
use crate::geom::V2;
use crate::shape::{shape_like, shape_zoomed, Line, RegularPolygon, Shape, Stroke};
use vstd::prelude::*;

verus! {

/// An ordered sequence of shapes, drawn back to front: later shapes paint
/// over earlier ones.
#[derive(Debug)]
pub struct VectorCanvas {
    pub shapes: Vec<Shape>,
}

impl VectorCanvas {
    /// An empty canvas.
    pub fn new() -> (c: VectorCanvas)
        ensures
            c@ == Seq::<Shape>::empty(),
    {
        VectorCanvas { shapes: Vec::new() }
    }

    /// Appends a shape; the drawing order is the rendering order.
    pub fn draw(&mut self, shape: Shape)
        ensures
            final(self)@ == old(self)@.push(shape),
    {
        self.shapes.push(shape);
    }

    /// Draws an open polyline through `points` with the given stroke.
    pub fn draw_shape(&mut self, points: Vec<V2>, stroke: Stroke)
        ensures
            final(self)@ == old(self)@.push(Shape::Line(Line { points, stroke })),
    {
        self.draw(Shape::Line(Line { points, stroke }));
    }

    /// Draws a regular polygon, kept symbolic until rendering.
    pub fn draw_regular_polygon(
        &mut self,
        center: V2,
        sides: usize,
        radius: Fx,
        rotation: Fx,
        stroke: Option<Stroke>,
        fill: Option<Color>,
    )
        ensures
            final(self)@ == old(self)@.push(
                Shape::RegularPolygon(
                    RegularPolygon { center, sides, rotation, radius, fill, stroke },
                ),
            ),
    {
        self.draw(
            Shape::RegularPolygon(
                RegularPolygon { center, sides, rotation, radius, fill, stroke },
            ),
        );
    }

    /// How many shapes the canvas holds.
    pub fn len(&self) -> (n: usize)
        ensures
            n == self@.len(),
    {
        self.shapes.len()
    }

    /// Read access to the shapes in drawing order.
    pub fn as_raw(&self) -> (s: &Vec<Shape>)
        ensures
            s@ == self@,
    {
        &self.shapes
    }

    /// The shape at an index.
    pub fn get(&self, i: usize) -> (s: &Shape)
        requires
            i < self@.len(),
        ensures
            *s == self@[i as int],
    {
        &self.shapes[i]
    }

    /// Scales every shape's positions and radii by `factor` about the
    /// camera origin; stroke widths keep their camera-space size.
    pub fn zoom_camera(&mut self, factor: Fx)
        ensures
            final(self)@.len() == old(self)@.len(),
            forall|i: int|
                0 <= i < old(self)@.len() ==> shape_zoomed(
                    old(self)@[i],
                    #[trigger] final(self)@[i],
                    factor,
                ),
    {
        let ghost orig = self.shapes@;
        let mut src: Vec<Shape> = Vec::new();
        core::mem::swap(&mut self.shapes, &mut src);
        let mut out: Vec<Shape> = Vec::new();
        while src.len() > 0
            invariant
                out@.len() + src@.len() == orig.len(),
                src@ == orig.skip(out@.len() as int),
                forall|j: int|
                    0 <= j < out@.len() ==> shape_zoomed(orig[j], #[trigger] out@[j], factor),
            decreases src@.len(),
        {
            let ghost n = out@.len() as int;
            let s: Shape = src.remove(0);
            proof {
                assert(s == orig.skip(n)[0]);
                assert(s == orig[n]);
            }
            out.push(s.zoomed(factor));
            proof {
                assert(src@ =~= orig.skip(n + 1));
            }
        }
        self.shapes = out;
    }
}

/// A fresh copy of a shape, content-equal to the original.
pub(crate) fn copy_shape(s: &Shape) -> (r: Shape)
    ensures
        shape_like(r, *s),
{
    match s {
        Shape::Line(l) => Shape::Line(
            crate::shape::Line { points: copy_v2s(&l.points), stroke: l.stroke },
        ),
        Shape::Polygon(p) => Shape::Polygon(
            crate::shape::Polygon {
                points: copy_v2s(&p.points),
                fill: p.fill,
                stroke: p.stroke,
            },
        ),
        Shape::RegularPolygon(rp) => Shape::RegularPolygon(*rp),
        Shape::Circle(c) => Shape::Circle(*c),
    }
}

/// A fresh vector holding the same points.
pub(crate) fn copy_v2s(v: &Vec<crate::geom::V2>) -> (r: Vec<crate::geom::V2>)
    ensures
        r@ == v@,
{
    let mut out: Vec<crate::geom::V2> = Vec::new();
    let mut i: usize = 0;
    while i < v.len()
        invariant
            i <= v@.len(),
            out@ == v@.take(i as int),
        decreases v@.len() - i,
    {
        out.push(v[i]);
        proof {
            assert(out@ =~= v@.take(i as int + 1));
        }
        i = i + 1;
    }
    proof {
        assert(out@ =~= v@);
    }
    out
}

/// A fresh canvas holding content-equal copies of the same shapes, in
/// order.
pub(crate) fn copy_canvas(c: &VectorCanvas) -> (r: VectorCanvas)
    ensures
        r@.len() == c@.len(),
        forall|i: int| 0 <= i < c@.len() ==> shape_like(#[trigger] r@[i], c@[i]),
{
    let mut out = VectorCanvas::new();
    let mut i: usize = 0;
    let n: usize = c.len();
    while i < n
        invariant
            i <= n,
            n == c@.len(),
            out@.len() == i,
            forall|j: int| 0 <= j < i ==> shape_like(#[trigger] out@[j], c@[j]),
        decreases n - i,
    {
        out.draw(copy_shape(c.get(i)));
        i = i + 1;
    }
    out
}

impl View for VectorCanvas {
    type V = Seq<Shape>;

    open spec fn view(&self) -> Seq<Shape> {
        self.shapes@
    }
}

} // verus!
