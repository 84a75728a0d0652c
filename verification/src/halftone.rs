//! The half-tone sketcher: reinterprets a raster image as a rotated grid
//! of variable-size dots, larger where the image is darker.
//!
//! The grid lies in a frame rotated an eighth of a turn, so dot rows run
//! diagonally; the grid over-scans a generous margin around the image so
//! the rotated rows cover the corners. Each cell samples the image at the
//! rotated-back cell center, clamped to the image bounds, and draws a
//! regular polygon whose radius shrinks linearly with brightness.

use crate::canvas::VectorCanvas;
use crate::color::Color;
use crate::fixed::{
    fx_add, fx_clamp, fx_div, fx_mul, fx_neg, fx_scale, fx_sub, Fx, FX_EIGHTH, FX_ONE,
    FX_SQRT_HALF,
};
use crate::geom::{rotated_spec, V2};
use crate::raster::RasterCanvas;
use crate::shape::{RegularPolygon, Shape};
use vstd::prelude::*;

verus! {

/// The configuration of a half-tone screen.
#[derive(Clone, Copy, Debug)]
pub struct HalftoneSketcherSettings {
    /// The grid pitch in pixels; at least one pixel.
    pub dot_density: Fx,
    /// Scales every dot radius.
    pub dot_scale: Fx,
    /// How many sides each dot polygon has.
    pub dot_sides: usize,
    /// The color of every dot.
    pub dot_color: Color,
}

/// The radius of a dot over a sample of perceived value `v`:
/// `density / major * (1 - v) / sqrt(2) * scale`.
pub open spec fn dot_radius(s: HalftoneSketcherSettings, major: Fx, v: Fx) -> i64 {
    fx_mul(fx_mul(fx_mul(fx_div(s.dot_density, major), fx_sub(FX_ONE, v)), FX_SQRT_HALF),
        s.dot_scale)
}

/// The per-axis cell count of the nominal extent, before the margin
/// tripling.
pub open spec fn grid_n(extent: usize, density: Fx) -> i64 {
    ((fx_div(((extent as int) * 65536) as i64, density) / 65536 + 1) as i64)
}

/// How many grid cells cover one axis: the cells of the nominal extent
/// and the same margin on both sides. A pitch of zero or less lays no
/// grid at all, mirroring that such a pitch can cover nothing.
pub open spec fn cell_count(extent: usize, density: Fx) -> int {
    if density <= 0 {
        0
    } else {
        3 * (grid_n(extent, density) as int)
    }
}

/// The smaller image dimension, in fixed-point pixels.
pub open spec fn major_of(img: RasterCanvas) -> Fx {
    (((if img.width < img.height {
        img.width
    } else {
        img.height
    }) as int) * 65536) as i64
}

/// Half the smaller image dimension, in fixed-point pixels.
pub open spec fn major_half_of(img: RasterCanvas) -> Fx {
    (((if img.width < img.height {
        img.width
    } else {
        img.height
    }) as int) * 32768) as i64
}

/// The center of grid cell `(gx, gy)` relative to the image center, in
/// fixed-point pixels, rotated an eighth of a turn: the diagonal frame
/// the dot rows run in.
#[verifier::opaque]
pub open spec fn cell_rel(
    img: RasterCanvas,
    s: HalftoneSketcherSettings,
    gx: int,
    gy: int,
) -> V2 {
    let nx = grid_n(img.width, s.dot_density);
    let ny = grid_n(img.height, s.dot_density);
    let half_density = (s.dot_density / 2) as i64;
    let flat = V2 {
        x: fx_sub(
            fx_add(fx_scale(((gx - nx) as i64), s.dot_density), half_density),
            ((img.width as int) * 32768) as i64,
        ),
        y: fx_sub(
            fx_add(fx_scale(((gy - ny) as i64), s.dot_density), half_density),
            ((img.height as int) * 32768) as i64,
        ),
    };
    rotated_spec(flat, FX_EIGHTH)
}

/// The column the cell samples: the rotated-back cell center clamped
/// into the image.
#[verifier::opaque]
pub open spec fn sample_x(
    img: RasterCanvas,
    s: HalftoneSketcherSettings,
    gx: int,
    gy: int,
) -> int {
    (fx_clamp(
        fx_add(cell_rel(img, s, gx, gy).x, ((img.width as int) * 32768) as i64),
        0,
        (((img.width as int) - 1) * 65536) as i64,
    ) as int) / 65536
}

/// The row the cell samples.
#[verifier::opaque]
pub open spec fn sample_y(
    img: RasterCanvas,
    s: HalftoneSketcherSettings,
    gx: int,
    gy: int,
) -> int {
    (fx_clamp(
        fx_add(cell_rel(img, s, gx, gy).y, ((img.height as int) * 32768) as i64),
        0,
        (((img.height as int) - 1) * 65536) as i64,
    ) as int) / 65536
}

/// The dot of grid cell `(gx, gy)`: the configured polygon at the cell's
/// camera-space position, its radius set by the perceived value at the
/// cell's sample point.
#[verifier::opaque]
pub open spec fn halftone_dot(
    img: RasterCanvas,
    s: HalftoneSketcherSettings,
    gx: int,
    gy: int,
) -> RegularPolygon {
    let rot = cell_rel(img, s, gx, gy);
    let v = img.image@[sample_y(img, s, gx, gy) * img.width + sample_x(img, s, gx, gy)].value();
    RegularPolygon {
        center: V2 {
            x: fx_div(rot.x, major_half_of(img)),
            y: fx_neg(fx_div(rot.y, major_half_of(img))),
        },
        sides: s.dot_sides,
        rotation: 0,
        radius: dot_radius(s, major_of(img), v),
        fill: Some(s.dot_color),
        stroke: None,
    }
}

/// A cell's sample point always lands inside the image.
pub proof fn lemma_sample_in_bounds(
    img: RasterCanvas,
    s: HalftoneSketcherSettings,
    gx: int,
    gy: int,
)
    requires
        1 <= img.width <= 0x7fffffff,
        1 <= img.height <= 0x7fffffff,
    ensures
        0 <= sample_x(img, s, gx, gy) < img.width,
        0 <= sample_y(img, s, gx, gy) < img.height,
{
    reveal(sample_x);
    reveal(sample_y);
    let cx = fx_clamp(
        fx_add(cell_rel(img, s, gx, gy).x, ((img.width as int) * 32768) as i64),
        0,
        (((img.width as int) - 1) * 65536) as i64,
    );
    let cyv = fx_clamp(
        fx_add(cell_rel(img, s, gx, gy).y, ((img.height as int) * 32768) as i64),
        0,
        (((img.height as int) - 1) * 65536) as i64,
    );
    vstd::arithmetic::div_mod::lemma_div_pos_is_pos(cx as int, 65536);
    vstd::arithmetic::div_mod::lemma_div_pos_is_pos(cyv as int, 65536);
    vstd::arithmetic::div_mod::lemma_div_is_ordered(
        cx as int, ((img.width as int) - 1) * 65536, 65536);
    vstd::arithmetic::div_mod::lemma_div_is_ordered(
        cyv as int, ((img.height as int) - 1) * 65536, 65536);
    vstd::arithmetic::div_mod::lemma_div_multiples_vanish((img.width as int) - 1, 65536);
    vstd::arithmetic::div_mod::lemma_div_multiples_vanish((img.height as int) - 1, 65536);
}

/// Over an all-white image every sampled value is full brightness, so
/// every dot's radius term `(1 - brightness)` is zero: the dots collapse
/// to the degenerate-but-tolerated zero size.
pub proof fn lemma_white_image_dots(
    img: RasterCanvas,
    s: HalftoneSketcherSettings,
    gx: int,
    gy: int,
)
    requires
        img.wf(),
        1 <= img.width <= 0x7fffffff,
        1 <= img.height <= 0x7fffffff,
        forall|k: int| 0 <= k < img.image@.len() ==> #[trigger] img.image@[k] == Color::white(),
    ensures
        halftone_dot(img, s, gx, gy).radius == 0,
{
    reveal(halftone_dot);
    lemma_sample_in_bounds(img, s, gx, gy);
    let sxi = sample_x(img, s, gx, gy);
    let syi = sample_y(img, s, gx, gy);
    let kk = syi * img.width + sxi;
    assert(0 <= kk < img.image@.len()) by (nonlinear_arith)
        requires
            kk == syi * (img.width as int) + sxi,
            0 <= sxi < img.width as int,
            0 <= syi < img.height as int,
            img.image@.len() == (img.width as int) * (img.height as int),
    ;
    assert(img.image@[kk] == Color::white());
    assert(Color::white().mean_rgb() == FX_ONE);
    assert(Color::white().value() == FX_ONE);
    assert(fx_sub(FX_ONE, FX_ONE) == 0);
    let base = fx_div(s.dot_density, major_of(img));
    assert((base as int) * 0 == 0) by (nonlinear_arith);
    assert(fx_mul(base, 0) == 0);
    assert(fx_mul(fx_mul(base, 0), FX_SQRT_HALF) == 0) by {
        assert(0 * (FX_SQRT_HALF as int) == 0) by (nonlinear_arith);
    }
    assert(fx_mul(fx_mul(fx_mul(base, 0), FX_SQRT_HALF), s.dot_scale) == 0) by {
        assert(0 * (s.dot_scale as int) == 0) by (nonlinear_arith);
    }
}

/// The half-tone dot-screen sketcher.
pub struct HalftoneSketcher {
    pub settings: HalftoneSketcherSettings,
    pub input_image: RasterCanvas,
    pub canvas: VectorCanvas,
}

impl HalftoneSketcher {
    /// The sketcher can sample its source image.
    pub open spec fn wf(&self) -> bool {
        &&& self.input_image.wf()
        &&& 1 <= self.input_image.width <= 0x7fffffff
        &&& 1 <= self.input_image.height <= 0x7fffffff
    }

    /// The smaller image dimension, in fixed-point pixels.
    pub open spec fn major(&self) -> Fx {
        major_of(self.input_image)
    }

    /// Creates a sketcher over a source image.
    pub fn new(input_image: RasterCanvas, settings: HalftoneSketcherSettings) -> (s:
        HalftoneSketcher)
        requires
            input_image.wf(),
            1 <= input_image.width <= 0x7fffffff,
            1 <= input_image.height <= 0x7fffffff,
        ensures
            s.wf(),
            s.settings == settings,
            s.input_image == input_image,
            s.canvas@.len() == 0,
    {
        HalftoneSketcher { settings, input_image, canvas: VectorCanvas::new() }
    }

    /// Lays the rotated dot grid over the image: one dot per cell, sized
    /// against the brightness at the cell's rotated sample point.
    pub fn run(&mut self)
        requires
            old(self).wf(),
        ensures
            final(self).wf(),
            final(self).settings == old(self).settings,
            final(self).input_image == old(self).input_image,
            final(self).canvas@.len() == old(self).canvas@.len() + cell_count(
                old(self).input_image.width,
                old(self).settings.dot_density,
            ) * cell_count(old(self).input_image.height, old(self).settings.dot_density),
            forall|ax: int, ay: int|
                0 <= ax < cell_count(old(self).input_image.width, old(self).settings.dot_density)
                    && 0 <= ay < cell_count(
                    old(self).input_image.height,
                    old(self).settings.dot_density,
                ) ==> #[trigger] final(self).canvas@[
                    old(self).canvas@.len() + ax * cell_count(
                        old(self).input_image.height,
                        old(self).settings.dot_density,
                    ) + ay
                ] == Shape::RegularPolygon(
                    halftone_dot(old(self).input_image, old(self).settings, ax, ay),
                ),
    {
        let noop = |_done: usize, _total: usize| {
        };
        self.run_with_progress(&noop);
    }

    /// Lays the rotated dot grid over the image, reporting progress
    /// before each dot as (dots done, total cells); one dot per cell,
    /// sized against the brightness at the cell's rotated sample point.
    #[verifier::rlimit(100)]
    #[verifier::spinoff_prover]
    pub fn run_with_progress<F: Fn(usize, usize)>(&mut self, before_iter: &F)
        requires
            old(self).wf(),
            forall|i: usize, n: usize| before_iter.requires((i, n)),
        ensures
            final(self).wf(),
            final(self).settings == old(self).settings,
            final(self).input_image == old(self).input_image,
            final(self).canvas@.len() == old(self).canvas@.len() + cell_count(
                old(self).input_image.width,
                old(self).settings.dot_density,
            ) * cell_count(old(self).input_image.height, old(self).settings.dot_density),
            forall|ax: int, ay: int|
                0 <= ax < cell_count(old(self).input_image.width, old(self).settings.dot_density)
                    && 0 <= ay < cell_count(
                    old(self).input_image.height,
                    old(self).settings.dot_density,
                ) ==> #[trigger] final(self).canvas@[
                    old(self).canvas@.len() + ax * cell_count(
                        old(self).input_image.height,
                        old(self).settings.dot_density,
                    ) + ay
                ] == Shape::RegularPolygon(
                    halftone_dot(old(self).input_image, old(self).settings, ax, ay),
                ),
    {
        let w: usize = self.input_image.get_width();
        let h: usize = self.input_image.get_height();
        let major_px: usize = if w < h {
            w
        } else {
            h
        };
        let major: Fx = (major_px as i64) * 65536;
        let major_half: Fx = (major_px as i64) * 32768;
        let density: Fx = self.settings.dot_density;
        if density <= 0 {
            return;
        }
        let wf64: i64 = (w as i64) * 65536;
        let hf64: i64 = (h as i64) * 65536;
        proof {
            vstd::arithmetic::div_mod::lemma_div_pos_is_pos(
                (wf64 as int) * 65536, density as int);
            vstd::arithmetic::div_mod::lemma_div_pos_is_pos(
                (hf64 as int) * 65536, density as int);
            vstd::arithmetic::div_mod::lemma_div_pos_is_pos(fx_div(wf64, density) as int, 65536);
            vstd::arithmetic::div_mod::lemma_div_pos_is_pos(fx_div(hf64, density) as int, 65536);
            vstd::arithmetic::div_mod::lemma_div_is_ordered(
                fx_div(wf64, density) as int, crate::fixed::FX_MAX as int, 65536);
            vstd::arithmetic::div_mod::lemma_div_is_ordered(
                fx_div(hf64, density) as int, crate::fixed::FX_MAX as int, 65536);
        }
        let nx: i64 = fx_div(wf64, density) / 65536 + 1;
        let ny: i64 = fx_div(hf64, density) / 65536 + 1;
        proof {
            assert(nx == grid_n(self.input_image.width, density));
            assert(ny == grid_n(self.input_image.height, density));
        }
        let cx: i64 = 3 * nx;
        let cy: i64 = 3 * ny;
        let half_w: Fx = (w as i64) * 32768;
        let half_h: Fx = (h as i64) * 32768;
        let half_density: Fx = density / 2;
        proof {
            assert(half_density as int == (density as int) / 2);
        }
        proof {
            assert(0 <= cx && 0 <= cy);
            assert((cx as int) * (cy as int) < 0x100000000000000000000000000000000)
                by (nonlinear_arith)
                requires
                    0 <= cx < 0x8000000000000000,
                    0 <= cy < 0x8000000000000000,
            ;
        }
        let cells128: u128 = (cx as u128) * (cy as u128);
        let total: usize = if cells128 > (usize::MAX as u128) {
            usize::MAX
        } else {
            cells128 as usize
        };
        let mut done: usize = 0;
        let mut gx: i64 = 0;
        while gx < cx
            invariant
                0 <= gx <= cx,
                cx == cell_count(old(self).input_image.width, old(self).settings.dot_density),
                cy == cell_count(old(self).input_image.height, old(self).settings.dot_density),
                cx >= 0,
                cy >= 0,
                self.wf(),
                self.settings == old(self).settings,
                self.input_image == old(self).input_image,
                w == self.input_image.width,
                h == self.input_image.height,
                density == self.settings.dot_density,
                0 < density,
                forall|i2: usize, n2: usize| before_iter.requires((i2, n2)),
                major == old(self).major(),
                major_half as int == (major_px as int) * 32768,
                major_px == (if w < h { w } else { h }),
                half_w as int == (w as int) * 32768,
                half_h as int == (h as int) * 32768,
                nx >= 1,
                ny >= 1,
                1 <= nx <= 0x2000000000000,
                1 <= ny <= 0x2000000000000,
                nx == grid_n(old(self).input_image.width, density),
                ny == grid_n(old(self).input_image.height, density),
                half_density as int == (density as int) / 2,
                cx == 3 * nx,
                cy == 3 * ny,
                self.canvas@.len() == old(self).canvas@.len() + gx * cy,
                forall|ax: int, ay: int|
                    0 <= ax < gx && 0 <= ay < cy ==> #[trigger] self.canvas@[
                        old(self).canvas@.len() + ax * cy + ay
                    ] == Shape::RegularPolygon(
                        halftone_dot(old(self).input_image, old(self).settings, ax, ay),
                    ),
            decreases cx - gx,
        {
            let mut gy: i64 = 0;
            while gy < cy
                invariant
                    0 <= gy <= cy,
                    0 <= gx < cx,
                    cx >= 0,
                    cy >= 0,
                    self.wf(),
                    self.settings == old(self).settings,
                    self.input_image == old(self).input_image,
                    w == self.input_image.width,
                    h == self.input_image.height,
                    density == self.settings.dot_density,
                    0 < density,
                    forall|i2: usize, n2: usize| before_iter.requires((i2, n2)),
                    major == old(self).major(),
                    major_half as int == (major_px as int) * 32768,
                    major_px == (if w < h { w } else { h }),
                    half_w as int == (w as int) * 32768,
                    half_h as int == (h as int) * 32768,
                    nx >= 1,
                    ny >= 1,
                    1 <= nx <= 0x2000000000000,
                    1 <= ny <= 0x2000000000000,
                    nx == grid_n(old(self).input_image.width, density),
                    ny == grid_n(old(self).input_image.height, density),
                    half_density as int == (density as int) / 2,
                    cx == 3 * nx,
                    cy == 3 * ny,
                    self.canvas@.len() == old(self).canvas@.len() + gx * cy + gy,
                    forall|ax: int, ay: int|
                        0 <= ax < gx && 0 <= ay < cy ==> #[trigger] self.canvas@[
                            old(self).canvas@.len() + ax * cy + ay
                        ] == Shape::RegularPolygon(
                            halftone_dot(old(self).input_image, old(self).settings, ax, ay),
                        ),
                    forall|ay: int|
                        0 <= ay < gy ==> #[trigger] self.canvas@[
                            old(self).canvas@.len() + gx * cy + ay
                        ] == Shape::RegularPolygon(
                            halftone_dot(old(self).input_image, old(self).settings, gx as int, ay),
                        ),
                decreases cy - gy,
            {
                before_iter(done, total);
                done = if done < usize::MAX {
                    done + 1
                } else {
                    done
                };
                // The cell center relative to the image center, rotated an
                // eighth of a turn.
                let rel = V2 {
                    x: fx_sub(
                        fx_add(crate::fixed::fx_scale(gx - nx, density), half_density),
                        half_w,
                    ),
                    y: fx_sub(
                        fx_add(crate::fixed::fx_scale(gy - ny, density), half_density),
                        half_h,
                    ),
                };
                let rot: V2 = rel.rotated(FX_EIGHTH);
                // Sample the image at the rotated point, clamped to bounds.
                let sxf: Fx = fx_clamp(fx_add(rot.x, half_w), 0, (w as i64 - 1) * 65536);
                let syf: Fx = fx_clamp(fx_add(rot.y, half_h), 0, (h as i64 - 1) * 65536);
                let sx: usize = (sxf / 65536) as usize;
                let sy: usize = (syf / 65536) as usize;
                proof {
                    vstd::arithmetic::div_mod::lemma_div_pos_is_pos(sxf as int, 65536);
                    vstd::arithmetic::div_mod::lemma_div_pos_is_pos(syf as int, 65536);
                    vstd::arithmetic::div_mod::lemma_div_is_ordered(
                        sxf as int, ((w as int) - 1) * 65536, 65536);
                    vstd::arithmetic::div_mod::lemma_div_is_ordered(
                        syf as int, ((h as int) - 1) * 65536, 65536);
                    vstd::arithmetic::div_mod::lemma_div_multiples_vanish((w as int) - 1, 65536);
                    vstd::arithmetic::div_mod::lemma_div_multiples_vanish((h as int) - 1, 65536);
                }
                let v: Fx = self.input_image.get_pixel(sx, sy).value();
                let radius: Fx = fx_mul(
                    fx_mul(fx_mul(fx_div(density, major), fx_sub(FX_ONE, v)), FX_SQRT_HALF),
                    self.settings.dot_scale,
                );
                let center = V2 {
                    x: fx_div(rot.x, major_half),
                    y: fx_neg(fx_div(rot.y, major_half)),
                };
                let sides: usize = self.settings.dot_sides;
                let fill: Option<Color> = Some(self.settings.dot_color);
                self.canvas.draw_regular_polygon(center, sides, radius, 0, None, fill);
                proof {
                    reveal(cell_rel);
                    reveal(sample_x);
                    reveal(sample_y);
                    reveal(halftone_dot);
                    let img0 = old(self).input_image;
                    let s0 = old(self).settings;
                    let base = old(self).canvas@.len() as int;
                    let nxs = grid_n(img0.width, s0.dot_density);
                    let nys = grid_n(img0.height, s0.dot_density);
                    assert(nxs == nx);
                    assert(nys == ny);
                    assert(((gx as int) - nxs) as i64 == gx - nx);
                    assert(((gy as int) - nys) as i64 == gy - ny);
                    assert(((s0.dot_density / 2) as i64) == half_density);
                    assert((((img0.width as int) * 32768) as i64) == half_w);
                    assert((((img0.height as int) * 32768) as i64) == half_h);
                    assert(rot == cell_rel(img0, s0, gx as int, gy as int));
                    assert(sxf == fx_clamp(
                        fx_add(
                            cell_rel(img0, s0, gx as int, gy as int).x,
                            ((img0.width as int) * 32768) as i64,
                        ),
                        0,
                        (((img0.width as int) - 1) * 65536) as i64,
                    ));
                    assert(syf == fx_clamp(
                        fx_add(
                            cell_rel(img0, s0, gx as int, gy as int).y,
                            ((img0.height as int) * 32768) as i64,
                        ),
                        0,
                        (((img0.height as int) - 1) * 65536) as i64,
                    ));
                    assert(sx as int == (sxf as int) / 65536);
                    assert(sy as int == (syf as int) / 65536);
                    assert(sx as int == sample_x(img0, s0, gx as int, gy as int));
                    assert(sy as int == sample_y(img0, s0, gx as int, gy as int));
                    assert(self.canvas@.last() == Shape::RegularPolygon(
                        halftone_dot(img0, s0, gx as int, gy as int),
                    ));
                    assert forall|ax: int, ay: int|
                        0 <= ax < gx && 0 <= ay < cy implies #[trigger] self.canvas@[
                        base + ax * cy + ay
                    ] == Shape::RegularPolygon(halftone_dot(img0, s0, ax, ay)) by {
                        assert(0 <= ax * cy + ay < (gx as int) * (cy as int))
                            by (nonlinear_arith)
                            requires
                                0 <= ax < gx as int,
                                0 <= ay < cy as int,
                        ;
                    }
                }
                gy = gy + 1;
            }
            proof {
                assert((gx + 1) * cy == gx * cy + cy) by (nonlinear_arith);
            }
            gx = gx + 1;
        }
    }
}

} // verus!
