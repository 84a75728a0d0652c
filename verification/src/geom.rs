//! 2-D fixed-point vectors and polygon construction.

use crate::fixed::{fx_add, fx_cos, fx_mul, fx_mul_spec, fx_sin, fx_sqrt, fx_sub, Fx};
use vstd::prelude::*;

verus! {

/// A point or direction in the plane, in fixed-point units.
#[derive(Clone, Copy, PartialEq, Eq, Structural, Debug)]
pub struct V2 {
    pub x: Fx,
    pub y: Fx,
}

impl V2 {
    /// A vector from its two coordinates.
    #[verifier::allow_in_spec]
    pub fn new(x: Fx, y: Fx) -> V2
        returns
            (V2 { x, y }),
    {
        V2 { x, y }
    }

    /// The zero vector.
    #[verifier::allow_in_spec]
    pub fn zero() -> V2
        returns
            (V2 { x: 0, y: 0 }),
    {
        V2 { x: 0, y: 0 }
    }

    /// Componentwise saturating sum.
    #[verifier::allow_in_spec]
    pub fn plus(self, o: V2) -> V2
        returns
            (V2 { x: fx_add(self.x, o.x), y: fx_add(self.y, o.y) }),
    {
        V2 { x: fx_add(self.x, o.x), y: fx_add(self.y, o.y) }
    }

    /// Componentwise saturating difference.
    #[verifier::allow_in_spec]
    pub fn minus(self, o: V2) -> V2
        returns
            (V2 { x: fx_sub(self.x, o.x), y: fx_sub(self.y, o.y) }),
    {
        V2 { x: fx_sub(self.x, o.x), y: fx_sub(self.y, o.y) }
    }

    /// Both coordinates scaled by a fixed-point factor.
    #[verifier::allow_in_spec]
    pub fn scaled(self, k: Fx) -> V2
        returns
            (V2 { x: fx_mul(self.x, k), y: fx_mul(self.y, k) }),
    {
        V2 { x: fx_mul(self.x, k), y: fx_mul(self.y, k) }
    }

    /// The Euclidean length, `sqrt(x^2 + y^2)`.
    pub fn length(self) -> (r: Fx)
        ensures
            r == length_spec(self),
            r >= 0,
    {
        let s: Fx = fx_add(fx_mul(self.x, self.x), fx_mul(self.y, self.y));
        proof {
            crate::fixed::lemma_fx_sqrt_range(s as int);
        }
        fx_sqrt(s)
    }

    /// The distance to another point.
    pub fn distance(self, o: V2) -> (r: Fx)
        ensures
            r == distance_spec(self, o),
            r >= 0,
    {
        self.minus(o).length()
    }

    /// The vector rotated by an angle in turn units.
    pub fn rotated(self, t: Fx) -> (r: V2)
        ensures
            r == rotated_spec(self, t),
    {
        proof {
            reveal(rotated_spec);
        }
        let c: Fx = fx_cos(t);
        let s: Fx = fx_sin(t);
        V2 {
            x: fx_sub(fx_mul(self.x, c), fx_mul(self.y, s)),
            y: fx_add(fx_mul(self.x, s), fx_mul(self.y, c)),
        }
    }
}

/// The Euclidean length of a vector.
pub open spec fn length_spec(v: V2) -> int {
    fx_sqrt(fx_add(fx_mul(v.x, v.x), fx_mul(v.y, v.y))) as int
}

/// The distance between two points.
pub open spec fn distance_spec(a: V2, b: V2) -> int {
    length_spec(a.minus(b))
}

/// A vector rotated by an angle in turn units.
#[verifier::opaque]
pub open spec fn rotated_spec(v: V2, t: Fx) -> V2 {
    let c = fx_cos(t);
    let s = fx_sin(t);
    V2 {
        x: fx_sub(fx_mul(v.x, c), fx_mul(v.y, s)),
        y: fx_add(fx_mul(v.x, s), fx_mul(v.y, c)),
    }
}

/// The `n`-th vertex of a regular polygon: the center offset by the radius
/// turned to the angle `rotation + n / sides` turns.
pub open spec fn poly_vertex(center: V2, radius: Fx, rotation: Fx, n: int, sides: int) -> V2 {
    let t = fx_add(rotation, ((n * 65536) / sides) as i64);
    V2 {
        x: fx_add(fx_mul(radius, fx_cos(t)), center.x),
        y: fx_add(fx_mul(radius, fx_sin(t)), center.y),
    }
}

/// The vertices of a regular polygon before the degenerate-shape check.
pub open spec fn poly_vertices(center: V2, radius: Fx, rotation: Fx, sides: int) -> Seq<V2> {
    Seq::new(sides as nat, |n: int| poly_vertex(center, radius, rotation, n, sides))
}

/// Whether the generated vertex list collapses: too few vertices, or the
/// first and last vertex coincide.
pub open spec fn poly_degenerate(pts: Seq<V2>) -> bool {
    pts.len() == 0 || pts[0] == pts[pts.len() - 1]
}

/// The vertices of a regular polygon, with the degenerate case collapsed to
/// a two-point stand-in a single raw unit wide.
pub open spec fn regular_polygon_spec(center: V2, radius: Fx, rotation: Fx, sides: int) -> Seq<
    V2,
> {
    let pts = poly_vertices(center, radius, rotation, sides);
    if poly_degenerate(pts) {
        seq![center, center.plus(V2 { x: 1, y: 1 })]
    } else {
        pts
    }
}

/// The vertices of the regular polygon with `sides` vertices around
/// `center`, the first at `rotation` turns, all at `radius`.
///
/// A degenerate result (no sides, or first and last vertex equal) collapses
/// to a near-invisible two-point stand-in instead of an error.
pub fn regular_polygon_points(center: V2, radius: Fx, rotation: Fx, sides: usize) -> (pts: Vec<
    V2,
>)
    ensures
        pts@ == regular_polygon_spec(center, radius, rotation, sides as int),
{
    let mut pts: Vec<V2> = Vec::new();
    let mut n: usize = 0;
    while n < sides
        invariant
            n <= sides,
            pts@ == poly_vertices(center, radius, rotation, sides as int).take(n as int),
        decreases sides - n,
    {
        let t: Fx = fx_add(rotation, ((n as u128) * 65536 / (sides as u128)) as i64);
        let p = V2 {
            x: fx_add(fx_mul(radius, fx_cos(t)), center.x),
            y: fx_add(fx_mul(radius, fx_sin(t)), center.y),
        };
        pts.push(p);
        proof {
            assert(p == poly_vertex(center, radius, rotation, n as int, sides as int));
            assert(pts@ == poly_vertices(center, radius, rotation, sides as int).take(
                n as int + 1));
        }
        n = n + 1;
    }
    proof {
        assert(pts@ == poly_vertices(center, radius, rotation, sides as int));
    }
    if pts.len() == 0 || pts[0] == pts[pts.len() - 1] {
        let mut out: Vec<V2> = Vec::new();
        out.push(center);
        out.push(center.plus(V2 { x: 1, y: 1 }));
        proof {
            assert(out@ =~= regular_polygon_spec(center, radius, rotation, sides as int));
        }
        out
    } else {
        pts
    }
}

/// Four-sided regular polygons are exact: with no rotation the vertices
/// are the four axis points at distance `radius` from the center, a square
/// whose diagonal is `2 * radius`.
pub proof fn lemma_square_polygon(center: V2, radius: Fx)
    requires
        0 < radius <= 0x40000000000,
        -0x40000000000 <= center.x <= 0x40000000000,
        -0x40000000000 <= center.y <= 0x40000000000,
    ensures
        regular_polygon_spec(center, radius, 0, 4) =~= seq![
            V2 { x: (center.x + radius) as i64, y: center.y },
            V2 { x: center.x, y: (center.y + radius) as i64 },
            V2 { x: (center.x - radius) as i64, y: center.y },
            V2 { x: center.x, y: (center.y - radius) as i64 },
        ],
{
    lemma_exact_axis_trig();
    crate::fixed::lemma_fx_mul_unit(radius);
    let pts = poly_vertices(center, radius, 0, 4);
    assert(fx_mul(radius, 0) == 0);
    assert(pts[0] == V2 { x: (center.x + radius) as i64, y: center.y });
    assert(pts[1] == V2 { x: center.x, y: (center.y + radius) as i64 });
    assert(pts[2] == V2 { x: (center.x - radius) as i64, y: center.y });
    assert(pts[3] == V2 { x: center.x, y: (center.y - radius) as i64 });
    assert(!poly_degenerate(pts));
}

/// Rotating the four-sided polygon by an eighth of a turn yields the same
/// square turned onto its diagonals: every vertex offset from the center
/// is `radius * sqrt(1/2)` along both axes, positive exactly and negative
/// within the one raw unit that rounding toward minus infinity costs.
pub proof fn lemma_square_polygon_rotated(center: V2, radius: Fx)
    requires
        2 <= radius <= 0x40000000000,
        -0x40000000000 <= center.x <= 0x40000000000,
        -0x40000000000 <= center.y <= 0x40000000000,
    ensures
        ({
            let c = fx_mul(radius, crate::fixed::FX_SQRT_HALF);
            let d = fx_mul(radius, (-46341) as i64);
            &&& 1 <= c
            &&& -c - 1 <= d <= -c
            &&& regular_polygon_spec(center, radius, crate::fixed::FX_EIGHTH, 4) =~= seq![
                V2 { x: (center.x + c) as i64, y: (center.y + c) as i64 },
                V2 { x: (center.x + d) as i64, y: (center.y + c) as i64 },
                V2 { x: (center.x + d) as i64, y: (center.y + d) as i64 },
                V2 { x: (center.x + c) as i64, y: (center.y + d) as i64 },
            ]
        }),
{
    lemma_exact_eighth_trig();
    let pts = poly_vertices(center, radius, crate::fixed::FX_EIGHTH, 4);
    let c = fx_mul(radius, crate::fixed::FX_SQRT_HALF);
    let d = fx_mul(radius, (-46341) as i64);
    crate::fixed::lemma_fx_mul_neg_factor(radius, 46341);
    assert((radius as int) * 46341 >= 2 * 46341) by (nonlinear_arith)
        requires radius as int >= 2;
    assert((radius as int) * 46341 <= 0x40000000000 * 46341) by (nonlinear_arith)
        requires radius as int <= 0x40000000000;
    assert(c >= 1) by {
        vstd::arithmetic::div_mod::lemma_div_is_ordered(
            65536, (radius as int) * 46341, 65536);
    }
    assert(c <= (0x40000000000 as int) * 46341 / 65536) by {
        vstd::arithmetic::div_mod::lemma_div_is_ordered(
            (radius as int) * 46341, (0x40000000000 as int) * 46341, 65536);
    }
    assert(pts[0] == V2 { x: (center.x + c) as i64, y: (center.y + c) as i64 });
    assert(pts[1] == V2 { x: (center.x + d) as i64, y: (center.y + c) as i64 });
    assert(pts[2] == V2 { x: (center.x + d) as i64, y: (center.y + d) as i64 });
    assert(pts[3] == V2 { x: (center.x + c) as i64, y: (center.y + d) as i64 });
    assert(!poly_degenerate(pts));
}

/// The quarter-wave endpoints evaluate exactly.
proof fn lemma_quarter_values()
    ensures
        crate::fixed::quarter_sin_spec(0) == 0,
        crate::fixed::quarter_sin_spec(16384) == 65536,
        crate::fixed::quarter_sin_spec(8192) == 46341,
{
    assert(65536 * 16 * 0 * (32768 - 0) == 0) by (nonlinear_arith);
    assert(5 * 32768 * 32768 - 4 * 0 * (32768 - 0) == 5368709120) by (nonlinear_arith);
    assert((0 as int) / 5368709120 == 0);
    assert(65536 * 16 * 16384 * (32768 - 16384) == 281474976710656) by (nonlinear_arith);
    assert(5 * 32768 * 32768 - 4 * 16384 * (32768 - 16384) == 4294967296) by (nonlinear_arith);
    assert((281474976710656 as int) / 4294967296 == 65536);
}

/// The sine and cosine at the four axis angles are exact.
proof fn lemma_exact_axis_trig()
    ensures
        fx_cos(0) == 65536,
        fx_sin(0) == 0,
        fx_cos(16384) == 0,
        fx_sin(16384) == 65536,
        fx_cos(32768) == -65536,
        fx_sin(32768) == 0,
        fx_cos(49152) == 0,
        fx_sin(49152) == -65536,
{
    lemma_quarter_values();
}

/// The sine and cosine at the four diagonal angles are exact.
proof fn lemma_exact_eighth_trig()
    ensures
        fx_cos(8192) == 46341,
        fx_sin(8192) == 46341,
        fx_cos(24576) == -46341,
        fx_sin(24576) == 46341,
        fx_cos(40960) == -46341,
        fx_sin(40960) == -46341,
        fx_cos(57344) == 46341,
        fx_sin(57344) == -46341,
{
    lemma_quarter_values();
}

/// The four corners of an axis-aligned rectangle, clockwise from the
/// corner nearest the origin of the two given.
pub fn rect_polygon_points(tl: V2, br: V2) -> (pts: Vec<V2>)
    ensures
        pts@ == rect_polygon_spec(tl, br),
{
    let mut pts: Vec<V2> = Vec::new();
    pts.push(tl);
    pts.push(V2 { x: br.x, y: tl.y });
    pts.push(br);
    pts.push(V2 { x: tl.x, y: br.y });
    proof {
        assert(pts@ =~= rect_polygon_spec(tl, br));
    }
    pts
}

/// The corners of an axis-aligned rectangle.
pub open spec fn rect_polygon_spec(tl: V2, br: V2) -> Seq<V2> {
    seq![tl, V2 { x: br.x, y: tl.y }, br, V2 { x: tl.x, y: br.y }]
}

} // verus!
