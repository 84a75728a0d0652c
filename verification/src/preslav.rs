//! The Preslav sketcher: approximates a raster image by splatting
//! semi-transparent regular polygons, largest and most transparent first.
//!
//! Each iteration samples a pixel, jitters the position, samples an edge
//! count, reads the pixel's color at the configured alpha, and appends the
//! polygon; once the stroke size has decayed below the inversion threshold
//! share of its initial value, a thin black or white outline is added,
//! chosen against the sampled color's channel mean. The stroke size decays
//! geometrically and the alpha grows self-limited by its own value.

use crate::canvas::VectorCanvas;
use crate::color::Color;
use crate::error::ConfigError;
use crate::fixed::{fx_add, fx_clamp, fx_div, fx_mul, fx_neg, fx_sub, Fx, FX_ONE};
use crate::geom::V2;
use crate::raster::RasterCanvas;
use crate::rng::{rng_between, rng_from_seed, rng_index};
use crate::shape::{LineEnd, RegularPolygon, Shape, Stroke};
use rand::rngs::SmallRng;
use vstd::prelude::*;

verus! {

/// The configuration of a Preslav sketch.
#[derive(Clone, Copy, Debug)]
pub struct PreslavSketcherSettings {
    /// How far each shape may be offset from its sample position, per
    /// axis, in camera units.
    pub stroke_jitter: Fx,
    /// The share of the initial stroke size below which outlines appear.
    pub stroke_inversion_threshold: Fx,
    /// The alpha of the first shapes drawn.
    pub alpha: Fx,
    /// How much the alpha grows each iteration, divided by the current
    /// alpha for a self-limiting curve.
    pub alpha_increase: Fx,
    /// The smallest number of edges a shape may get.
    pub min_edge_count: usize,
    /// The largest number of edges a shape may get.
    pub max_edge_count: usize,
    /// The size of the first shapes drawn.
    pub stroke_size: Fx,
    /// The share of the stroke size lost after each shape.
    pub stroke_reduction: Fx,
    /// Scales the uniform random rotation given to each shape, in turns.
    pub randomize_rotation: Fx,
    /// The number of shapes to draw.
    pub shapes: usize,
}

impl PreslavSketcherSettings {
    /// The jitter range must be samplable, and the size and its decay
    /// share nonnegative with the share at most one, so the size sequence
    /// stays nonnegative and non-increasing.
    pub open spec fn ranges_wf(&self) -> bool {
        &&& self.stroke_jitter >= 0
        &&& self.stroke_size >= 0
        &&& 0 <= self.stroke_reduction <= FX_ONE
    }
}

impl PreslavSketcherSettings {
    /// Default settings after the suggestions the algorithm's book makes,
    /// scaled to the camera square: the first strokes cover a quarter of
    /// the width, and the decay and the alpha growth are spread over the
    /// expected number of shapes. On this fixed-point grid the decay
    /// share rounds to zero once the iteration count outgrows it, leaving
    /// the stroke size constant.
    pub fn new_preslav(expected_iterations: usize) -> (s: PreslavSketcherSettings)
        requires
            1 <= expected_iterations <= 0x7fffffff,
        ensures
            s.ranges_wf(),
            s.min_edge_count == 3,
            s.max_edge_count == 4,
            s.shapes == expected_iterations,
            s.stroke_size == 32768,
            s.stroke_jitter == 13107,
            s.stroke_inversion_threshold == 3277,
            s.alpha == 17957,
            s.alpha_increase == fx_div(47579, ((expected_iterations as int) * 65536) as i64),
            s.stroke_reduction == fx_div(468, ((expected_iterations as int) * 65536) as i64),
            s.randomize_rotation == 65536,
    {
        let iters_fx: i64 = (expected_iterations as i64) * 65536;
        proof {
            assert(fx_div(32768, 4587520) == 468);
            vstd::arithmetic::div_mod::lemma_div_pos_is_pos(
                (468 * 65536) as int, iters_fx as int);
            vstd::arithmetic::div_mod::lemma_div_is_ordered_by_denominator(
                (468 * 65536) as int, 65536int, iters_fx as int);
        }
        PreslavSketcherSettings {
            stroke_jitter: 13107,
            stroke_inversion_threshold: 3277,
            alpha: 17957,
            alpha_increase: fx_div(47579, iters_fx),
            min_edge_count: 3,
            max_edge_count: 4,
            stroke_size: 32768,
            stroke_reduction: fx_div(fx_div(32768, 4587520), iters_fx),
            randomize_rotation: 65536,
            shapes: expected_iterations,
        }
    }
}

/// The camera-space position of the pixel sample `(px, py)` after the
/// jitter `(jx, jy)`.
pub open spec fn preslav_center(img: RasterCanvas, px: int, py: int, jx: i64, jy: i64) -> V2 {
    let major_px = if img.width < img.height {
        img.width
    } else {
        img.height
    };
    let major_half = ((major_px as int) * 32768) as i64;
    V2 {
        x: fx_add(
            fx_div(
                fx_sub(((px * 65536) as i64), ((img.width as int) * 32768) as i64),
                major_half,
            ),
            jx,
        ),
        y: fx_add(
            fx_neg(
                fx_div(
                    fx_sub(((py * 65536) as i64), ((img.height as int) * 32768) as i64),
                    major_half,
                ),
            ),
            jy,
        ),
    }
}

/// What one drawn Preslav shape looks like, against the state before the
/// draw: a regular polygon at the configured stroke size, with the edge
/// count inside the configured bounds, centered on a jittered source
/// sample and filled with the un-jittered sample pixel's color at the
/// configured alpha, and outlined exactly when the stroke size has
/// decayed past the threshold — in white over a dark fill and in black
/// over a light one, at twice the alpha.
pub open spec fn preslav_shape_ok(
    sh: Shape,
    s: PreslavSketcherSettings,
    initial_stroke_size: Fx,
    img: RasterCanvas,
) -> bool {
    match sh {
        Shape::RegularPolygon(rp) => {
            &&& s.min_edge_count <= rp.sides <= s.max_edge_count
            &&& rp.radius == s.stroke_size
            &&& (if s.randomize_rotation >= 0 {
                0 <= rp.rotation <= s.randomize_rotation
            } else {
                s.randomize_rotation <= rp.rotation <= 0
            })
            &&& exists|px: int, py: int, jx: i64, jy: i64|
                {
                    &&& 0 <= px < img.width
                    &&& 0 <= py < img.height
                    &&& -s.stroke_jitter <= jx <= s.stroke_jitter
                    &&& -s.stroke_jitter <= jy <= s.stroke_jitter
                    &&& rp.center == (#[trigger] preslav_center(img, px, py, jx, jy))
                    &&& rp.fill == Some(img.image@[py * img.width + px].with_alpha(s.alpha))
                }
            &&& (rp.stroke is Some <==> s.stroke_size <= fx_mul(
                s.stroke_inversion_threshold,
                initial_stroke_size,
            ))
            &&& (match (rp.fill, rp.stroke) {
                (Some(c), Some(st)) => st.color == (if c.mean_rgb() < 32768 {
                    Color::new(FX_ONE, FX_ONE, FX_ONE, fx_mul(s.alpha, 131072))
                } else {
                    Color::new(0, 0, 0, fx_mul(s.alpha, 131072))
                }) && st.width == 66 && st.line_end == LineEnd::Round,
                _ => true,
            })
        },
        _ => false,
    }
}

/// Whether a shape is a regular polygon whose edge count lies in bounds.
pub open spec fn edge_bounded(sh: Shape, lo: usize, hi: usize) -> bool {
    match sh {
        Shape::RegularPolygon(rp) => lo <= rp.sides <= hi,
        _ => false,
    }
}

/// The stroke size after one geometric decay step.
pub open spec fn decayed(size: Fx, reduction: Fx) -> i64 {
    fx_sub(size, fx_mul(reduction, size))
}

/// The alpha after one self-limited growth step, clamped into `[0, 1]`.
pub open spec fn grown_alpha(alpha: Fx, increase: Fx) -> i64 {
    fx_clamp(fx_add(alpha, fx_div(increase, alpha)), 0, FX_ONE)
}

/// Geometric decay with a share in `[0, 1]` never grows the size and
/// never makes it negative.
pub proof fn lemma_decay_monotone(size: Fx, reduction: Fx)
    requires
        size >= 0,
        0 <= reduction <= FX_ONE,
    ensures
        0 <= decayed(size, reduction) <= size,
{
    let m = fx_mul(reduction, size);
    assert(0 <= (reduction as int) * (size as int) <= 65536 * (size as int))
        by (nonlinear_arith)
        requires
            0 <= reduction as int <= 65536,
            0 <= size as int,
    ;
    vstd::arithmetic::div_mod::lemma_div_pos_is_pos((reduction as int) * (size as int), 65536);
    vstd::arithmetic::div_mod::lemma_div_is_ordered(
        (reduction as int) * (size as int),
        65536 * (size as int),
        65536,
    );
    vstd::arithmetic::div_mod::lemma_div_multiples_vanish(size as int, 65536);
}

/// The Preslav stippling sketcher.
pub struct PreslavSketcher {
    pub settings: PreslavSketcherSettings,
    pub initial_stroke_size: Fx,
    pub input_image: RasterCanvas,
    pub canvas: VectorCanvas,
    pub rng: SmallRng,
}

impl PreslavSketcher {
    /// The sketcher can sample its source image and keep decaying.
    pub open spec fn wf(&self) -> bool {
        &&& self.settings.ranges_wf()
        &&& self.settings.min_edge_count >= 3
        &&& self.settings.min_edge_count <= self.settings.max_edge_count
        &&& self.settings.max_edge_count <= 65536
        &&& self.input_image.wf()
        &&& 1 <= self.input_image.width <= 0x7fffffff
        &&& 1 <= self.input_image.height <= 0x7fffffff
    }

    /// Creates a sketcher over a source image. Rejects shapes of fewer
    /// than three edges and an edge-count range in the wrong order.
    pub fn new(input_image: RasterCanvas, settings: PreslavSketcherSettings, seed: u64) -> (r:
        Result<PreslavSketcher, ConfigError>)
        requires
            settings.ranges_wf(),
            settings.max_edge_count <= 65536,
            input_image.wf(),
            1 <= input_image.width <= 0x7fffffff,
            1 <= input_image.height <= 0x7fffffff,
        ensures
            r is Ok <==> settings.min_edge_count >= 3 && settings.min_edge_count
                <= settings.max_edge_count,
            settings.min_edge_count < 3 ==> (r matches Err(e)
                && e == ConfigError::EdgeCountBelowMinimum),
            settings.min_edge_count >= 3 && settings.min_edge_count > settings.max_edge_count
                ==> (r matches Err(e) && e == ConfigError::EdgeCountOrderInvalid),
            r matches Ok(s) ==> {
                &&& s.wf()
                &&& s.settings == settings
                &&& s.initial_stroke_size == settings.stroke_size
                &&& s.input_image == input_image
                &&& s.canvas@.len() == 0
            },
    {
        if settings.min_edge_count < 3 {
            return Err(ConfigError::EdgeCountBelowMinimum);
        }
        if settings.min_edge_count > settings.max_edge_count {
            return Err(ConfigError::EdgeCountOrderInvalid);
        }
        Ok(
            PreslavSketcher {
                settings,
                initial_stroke_size: settings.stroke_size,
                input_image,
                canvas: VectorCanvas::new(),
                rng: rng_from_seed(seed),
            },
        )
    }

    /// Read access to the canvas drawn so far.
    pub fn get_canvas(&self) -> (c: &VectorCanvas)
        ensures
            c@ == self.canvas@,
    {
        &self.canvas
    }

    /// Consumes the sketcher and returns the input image.
    pub fn take_input(self) -> (img: RasterCanvas)
        ensures
            img == self.input_image,
    {
        self.input_image
    }

    /// Draws the next polygon: a random source pixel's color at the
    /// current alpha, splatted at the jittered sample position with a
    /// random edge count, then the stroke size decays and the alpha grows.
    pub fn draw_shape(&mut self)
        requires
            old(self).wf(),
        ensures
            final(self).wf(),
            final(self).input_image == old(self).input_image,
            final(self).initial_stroke_size == old(self).initial_stroke_size,
            final(self).settings.stroke_size == decayed(
                old(self).settings.stroke_size,
                old(self).settings.stroke_reduction,
            ),
            final(self).settings.stroke_size <= old(self).settings.stroke_size,
            final(self).settings.alpha == grown_alpha(
                old(self).settings.alpha,
                old(self).settings.alpha_increase,
            ),
            unchanged_but_decay(old(self).settings, final(self).settings),
            final(self).canvas@.len() == old(self).canvas@.len() + 1,
            final(self).canvas@.drop_last() == old(self).canvas@,
            preslav_shape_ok(
                final(self).canvas@.last(),
                old(self).settings,
                old(self).initial_stroke_size,
                old(self).input_image,
            ),
    {
        let w: usize = self.input_image.get_width();
        let h: usize = self.input_image.get_height();
        let px: usize = rng_index(&mut self.rng, w);
        let py: usize = rng_index(&mut self.rng, h);
        let j: Fx = self.settings.stroke_jitter;
        let jx: Fx = rng_between(&mut self.rng, fx_neg(j), j);
        let jy: Fx = rng_between(&mut self.rng, fx_neg(j), j);
        // Transform the sampled pixel position to camera space, then jitter.
        let major: usize = if w < h {
            w
        } else {
            h
        };
        let major_half: Fx = (major as i64) * 32768;
        let cx: Fx = fx_add(
            fx_div(fx_sub((px as i64) * 65536, (w as i64) * 32768), major_half),
            jx,
        );
        let cy: Fx = fx_add(
            fx_neg(fx_div(fx_sub((py as i64) * 65536, (h as i64) * 32768), major_half)),
            jy,
        );
        let edge_count: usize = rng_between(
            &mut self.rng,
            self.settings.min_edge_count as i64,
            self.settings.max_edge_count as i64,
        ) as usize;
        let color: Color = self.input_image.get_pixel(px, py).with_alpha(self.settings.alpha);
        let threshold: Fx = fx_mul(self.settings.stroke_inversion_threshold, self.initial_stroke_size);
        let edge_stroke: Option<Stroke> = if self.settings.stroke_size <= threshold {
            let outline: Color = if color.mean_rgb() < 32768 {
                Color::new(FX_ONE, FX_ONE, FX_ONE, fx_mul(self.settings.alpha, 131072))
            } else {
                Color::new(0, 0, 0, fx_mul(self.settings.alpha, 131072))
            };
            Some(Stroke { color: outline, width: 66, line_end: LineEnd::Round })
        } else {
            None
        };
        let spin: Fx = rng_between(&mut self.rng, 0, 65536);
        proof {
            crate::fixed::lemma_fx_mul_fraction(spin, self.settings.randomize_rotation);
        }
        let rotation: Fx = fx_mul(spin, self.settings.randomize_rotation);
        self.canvas.draw_regular_polygon(
            V2 { x: cx, y: cy },
            edge_count,
            self.settings.stroke_size,
            rotation,
            edge_stroke,
            Some(color),
        );
        proof {
            lemma_decay_monotone(self.settings.stroke_size, self.settings.stroke_reduction);
        }
        self.settings.stroke_size = fx_sub(
            self.settings.stroke_size,
            fx_mul(self.settings.stroke_reduction, self.settings.stroke_size),
        );
        self.settings.alpha = fx_clamp(
            fx_add(self.settings.alpha, fx_div(self.settings.alpha_increase, self.settings.alpha)),
            0,
            FX_ONE,
        );
        proof {
            assert(self.canvas@.drop_last() =~= old(self).canvas@);
            let iw = old(self).input_image.width as int;
            let ih = old(self).input_image.height as int;
            let ilen = old(self).input_image.image@.len() as int;
            let kk = (py as int) * iw + (px as int);
            assert(0 <= kk < ilen) by (nonlinear_arith)
                requires
                    kk == (py as int) * iw + (px as int),
                    0 <= (px as int) < iw,
                    0 <= (py as int) < ih,
                    ilen == iw * ih,
            ;
            assert(color == old(self).input_image.image@[kk].with_alpha(old(self).settings.alpha));
            let img0 = old(self).input_image;
            let s0 = old(self).settings;
            assert(V2 { x: cx, y: cy } == preslav_center(
                img0,
                px as int,
                py as int,
                jx,
                jy,
            ));
            assert(fx_neg(j) == -s0.stroke_jitter);
            assert(exists|ax: int, ay: int, bx: i64, by: i64|
                {
                    &&& 0 <= ax < img0.width
                    &&& 0 <= ay < img0.height
                    &&& -s0.stroke_jitter <= bx <= s0.stroke_jitter
                    &&& -s0.stroke_jitter <= by <= s0.stroke_jitter
                    &&& V2 { x: cx, y: cy } == (#[trigger] preslav_center(img0, ax, ay, bx, by))
                    &&& Some(color) == Some(
                        img0.image@[ay * img0.width + ax].with_alpha(s0.alpha),
                    )
                }) by {
                assert(0 <= (px as int) < img0.width && 0 <= (py as int) < img0.height
                    && -s0.stroke_jitter <= jx <= s0.stroke_jitter && -s0.stroke_jitter <= jy
                    <= s0.stroke_jitter && V2 { x: cx, y: cy } == preslav_center(
                    img0,
                    px as int,
                    py as int,
                    jx,
                    jy,
                ) && Some(color) == Some(
                    img0.image@[(py as int) * img0.width + (px as int)].with_alpha(s0.alpha),
                ));
            }
        }
    }

    /// Draws the configured number of shapes. The stroke size sequence is
    /// non-increasing across iterations, and every shape respects the
    /// edge-count bounds.
    pub fn run(&mut self)
        requires
            old(self).wf(),
        ensures
            final(self).wf(),
            final(self).input_image == old(self).input_image,
            final(self).initial_stroke_size == old(self).initial_stroke_size,
            final(self).settings.stroke_size <= old(self).settings.stroke_size,
            unchanged_but_decay(old(self).settings, final(self).settings),
            final(self).canvas@.len() == old(self).canvas@.len() + old(self).settings.shapes,
            forall|i: int|
                old(self).canvas@.len() <= i < final(self).canvas@.len() ==> edge_bounded(
                    #[trigger] final(self).canvas@[i],
                    old(self).settings.min_edge_count,
                    old(self).settings.max_edge_count,
                ),
    {
        let total: usize = self.settings.shapes;
        let mut k: usize = 0;
        while k < total
            invariant
                k <= total,
                self.wf(),
                self.input_image == old(self).input_image,
                self.initial_stroke_size == old(self).initial_stroke_size,
                self.settings.stroke_size <= old(self).settings.stroke_size,
                unchanged_but_decay(old(self).settings, self.settings),
                self.settings.shapes == total,
                self.canvas@.len() == old(self).canvas@.len() + k,
                forall|i: int|
                    old(self).canvas@.len() <= i < self.canvas@.len() ==> edge_bounded(
                        #[trigger] self.canvas@[i],
                        old(self).settings.min_edge_count,
                        old(self).settings.max_edge_count,
                    ),
            decreases total - k,
        {
            let ghost before = self.canvas@;
            self.draw_shape();
            proof {
                let n2 = self.canvas@.len() as int;
                assert forall|i: int|
                    old(self).canvas@.len() <= i < n2 implies edge_bounded(
                    #[trigger] self.canvas@[i],
                    old(self).settings.min_edge_count,
                    old(self).settings.max_edge_count,
                ) by {
                    if i < n2 - 1 {
                        assert(self.canvas@.drop_last()[i] == self.canvas@[i]);
                        assert(before[i] == self.canvas@[i]);
                    } else {
                        assert(self.canvas@[i] == self.canvas@.last());
                    }
                }
            }
            k = k + 1;
        }
    }
}

/// The settings fields that drawing never changes: everything but the
/// decaying stroke size and the growing alpha.
pub open spec fn unchanged_but_decay(
    a: PreslavSketcherSettings,
    b: PreslavSketcherSettings,
) -> bool {
    &&& b.stroke_jitter == a.stroke_jitter
    &&& b.stroke_inversion_threshold == a.stroke_inversion_threshold
    &&& b.alpha_increase == a.alpha_increase
    &&& b.min_edge_count == a.min_edge_count
    &&& b.max_edge_count == a.max_edge_count
    &&& b.stroke_reduction == a.stroke_reduction
    &&& b.randomize_rotation == a.randomize_rotation
    &&& b.shapes == a.shapes
}

} // verus!
