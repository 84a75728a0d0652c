//! The wave sketcher: converts image rows into oscillating line traces
//! whose instantaneous frequency follows local brightness.
//!
//! Each retained row accumulates a phase: every retained column advances it
//! by the (optionally box-blurred) brightness times the frequency
//! multiplier, wrapped modulo one turn, and contributes a point displaced
//! vertically by the sine of the phase. Columns darker than the threshold
//! flush the current segment, leaving deliberate gaps. With
//! `stroke_with_frequency` each pair of points becomes its own segment
//! whose width follows the phase advance.
//!
//! The whole trace is deterministic, and [`wave_segments`] pins it exactly:
//! running appends precisely those segments, point for point.

use crate::canvas::VectorCanvas;
use crate::fixed::{
    floor_div, fx_add, fx_div, fx_mod_turn, fx_mul, fx_neg, fx_sin, fx_sub, Fx, FX_ONE,
};
use crate::geom::V2;
use crate::raster::RasterCanvas;
use crate::shape::{Line, Shape, Stroke};
use vstd::prelude::*;

verus! {

/// The configuration of a wave sketch.
#[derive(Clone, Copy, Debug)]
pub struct WaveSketcherSettings {
    /// The stroke the lines are drawn with.
    pub stroke: Stroke,
    /// Keep only every `skip_rows + 1`-th row of pixels.
    pub skip_rows: usize,
    /// Keep only every `skip_columns + 1`-th column of pixels.
    pub skip_columns: usize,
    /// Scales how fast brightness advances the phase.
    pub frequency_multiplier: Fx,
    /// Scales the vertical displacement, in pixels.
    pub amplitude_multiplier: Fx,
    /// Advance the phase by darkness instead of brightness.
    pub invert_brightness: bool,
    /// Below this brightness no point is drawn and the line breaks.
    pub brightness_threshold: Fx,
    /// The radius of a box blur over the sampled brightness; zero for
    /// none.
    pub box_blur_radius: usize,
    /// Split the trace into per-step segments with width following the
    /// phase advance.
    pub stroke_with_frequency: bool,
}

impl WaveSketcherSettings {
    /// The skips and the blur stay in ranges the loop arithmetic can add
    /// and square without overflow.
    pub open spec fn wf(&self) -> bool {
        &&& self.skip_rows <= 0x7fffffff
        &&& self.skip_columns <= 0x7fffffff
        &&& self.box_blur_radius <= 30000
    }
}

/// The perceived value of the pixel at `(x, y)`.
pub open spec fn pixel_value(img: RasterCanvas, x: int, y: int) -> i64 {
    img.image@[y * img.width + x].value()
}

/// The values of one clamped blur column, folded onto `acc` top to
/// bottom, as the blur loop adds them.
pub open spec fn col_sum(img: RasterCanvas, x: int, y0: int, y1: int, acc: i64) -> i64
    decreases (if y0 > y1 { 0int } else { y1 - y0 + 1 }),
{
    if y0 > y1 {
        acc
    } else {
        col_sum(img, x, y0 + 1, y1, fx_add(acc, pixel_value(img, x, y0)))
    }
}

/// The values of the clamped blur window, folded column by column.
pub open spec fn win_sum(img: RasterCanvas, x0: int, x1: int, y0: int, y1: int, acc: i64) -> i64
    decreases (if x0 > x1 { 0int } else { x1 - x0 + 1 }),
{
    if x0 > x1 {
        acc
    } else {
        win_sum(img, x0 + 1, x1, y0, y1, col_sum(img, x0, y0, y1, acc))
    }
}

/// The brightness feeding column `c` of row `r`: the pixel's value, or
/// the mean over the half-open blur window `[c-r, c+r) x [r-r, r+r)` of
/// `(2r)^2` samples, clamped to the image and divided by the nominal
/// window area `(2r)^2`; inverted on demand.
pub open spec fn brightness_spec(
    img: RasterCanvas,
    s: WaveSketcherSettings,
    c: int,
    r: int,
) -> i64 {
    let raw = if s.box_blur_radius == 0 {
        pixel_value(img, c, r)
    } else {
        let rad = s.box_blur_radius as int;
        let x0 = if c > rad {
            c - rad
        } else {
            0
        };
        let x1 = if c + rad - 1 < img.width as int {
            c + rad - 1
        } else {
            img.width - 1
        };
        let y0 = if r > rad {
            r - rad
        } else {
            0
        };
        let y1 = if r + rad - 1 < img.height as int {
            r + rad - 1
        } else {
            img.height - 1
        };
        let sum = win_sum(img, x0, x1, y0, y1, 0);
        fx_div(sum, ((2 * rad) * (2 * rad) * 65536) as i64)
    };
    if s.invert_brightness {
        fx_sub(FX_ONE, raw)
    } else {
        raw
    }
}

/// An angle reduced to one turn.
pub open spec fn mod_turn(t: i64) -> i64 {
    (t - 65536 * floor_div(t as int, 65536)) as i64
}

/// The traced point of column `c` in row `r` at the given phase: the
/// camera transform of the pixel position displaced vertically by the
/// sine of the phase times the amplitude.
pub open spec fn wave_point(
    img: RasterCanvas,
    s: WaveSketcherSettings,
    c: int,
    r: int,
    phase: i64,
) -> V2 {
    let major_px = if img.width < img.height {
        img.width
    } else {
        img.height
    };
    let major_half = ((major_px as int) * 32768) as i64;
    let half_w = ((img.width as int) * 32768) as i64;
    let half_h = ((img.height as int) * 32768) as i64;
    let y_off = fx_mul(fx_sin(phase), s.amplitude_multiplier);
    V2 {
        x: fx_div(fx_sub(((c * 65536) as i64), half_w), major_half),
        y: fx_neg(fx_div(fx_sub(fx_add(((r * 65536) as i64), y_off), half_h), major_half)),
    }
}

/// The stroke of a frequency-modulated segment: the configured stroke
/// with its width following the phase advance.
pub open spec fn swf_stroke(s: WaveSketcherSettings, delta: i64) -> Stroke {
    Stroke {
        color: s.stroke.color,
        width: fx_mul(fx_mul(s.stroke.width, delta), 655360),
        line_end: s.stroke.line_end,
    }
}

/// One row's trace from column `c` on, given the accumulated phase, the
/// points of the open segment, and the segments emitted so far; the open
/// segment is flushed at the row's end if it has at least two points.
pub open spec fn row_walk(
    img: RasterCanvas,
    s: WaveSketcherSettings,
    r: int,
    c: int,
    phase: i64,
    pending: Seq<V2>,
    segs: Seq<(Seq<V2>, Stroke)>,
) -> Seq<(Seq<V2>, Stroke)>
    decreases (if c >= img.width as int { 0int } else { img.width - c }),
{
    if c >= img.width as int {
        if pending.len() >= 2 {
            segs.push((pending, s.stroke))
        } else {
            segs
        }
    } else {
        let b = brightness_spec(img, s, c, r);
        let cnext = c + 1 + (s.skip_columns as int);
        if b >= s.brightness_threshold {
            let delta = fx_mul(b, s.frequency_multiplier);
            let phase2 = mod_turn(
                fx_add(phase, fx_mul(delta, (((s.skip_columns as int) + 1) * 65536) as i64)),
            );
            let p = wave_point(img, s, c, r, phase2);
            let pending2 = pending.push(p);
            if s.stroke_with_frequency && pending2.len() >= 2 {
                row_walk(
                    img,
                    s,
                    r,
                    cnext,
                    phase2,
                    seq![p],
                    segs.push((pending2, swf_stroke(s, delta))),
                )
            } else {
                row_walk(img, s, r, cnext, phase2, pending2, segs)
            }
        } else {
            if pending.len() >= 2 {
                row_walk(img, s, r, cnext, phase, Seq::empty(), segs.push((pending, s.stroke)))
            } else {
                row_walk(img, s, r, cnext, phase, Seq::empty(), segs)
            }
        }
    }
}

/// The traces of every retained row from `r` on, appended to `segs`.
pub open spec fn rows_walk(
    img: RasterCanvas,
    s: WaveSketcherSettings,
    r: int,
    segs: Seq<(Seq<V2>, Stroke)>,
) -> Seq<(Seq<V2>, Stroke)>
    decreases (if r >= img.height as int { 0int } else { img.height - r }),
{
    if r >= img.height as int {
        segs
    } else {
        rows_walk(
            img,
            s,
            r + 1 + (s.skip_rows as int),
            row_walk(img, s, r, 0, 0, Seq::empty(), segs),
        )
    }
}

/// Every segment the wave sketch draws over an image, in drawing order:
/// the points of each polyline and its stroke.
pub open spec fn wave_segments(img: RasterCanvas, s: WaveSketcherSettings) -> Seq<
    (Seq<V2>, Stroke),
> {
    rows_walk(img, s, 0, Seq::empty())
}

/// Whether a shape is the polyline of one traced segment.
pub open spec fn is_segment_shape(sh: Shape, seg: (Seq<V2>, Stroke)) -> bool {
    match sh {
        Shape::Line(l) => l.points@ == seg.0 && l.stroke == seg.1,
        _ => false,
    }
}

/// The wave-line sketcher.
pub struct WaveSketcher {
    pub settings: WaveSketcherSettings,
    pub input_image: RasterCanvas,
    pub canvas: VectorCanvas,
}

impl WaveSketcher {
    /// The sketcher can sample its source image.
    pub open spec fn wf(&self) -> bool {
        &&& self.settings.wf()
        &&& self.input_image.wf()
        &&& 1 <= self.input_image.width <= 0x7fffffff
        &&& 1 <= self.input_image.height <= 0x7fffffff
    }

    /// Creates a sketcher over a source image.
    pub fn new(input_image: RasterCanvas, settings: WaveSketcherSettings) -> (s: WaveSketcher)
        requires
            settings.wf(),
            input_image.wf(),
            1 <= input_image.width <= 0x7fffffff,
            1 <= input_image.height <= 0x7fffffff,
        ensures
            s.wf(),
            s.settings == settings,
            s.input_image == input_image,
            s.canvas@.len() == 0,
    {
        WaveSketcher { settings, input_image, canvas: VectorCanvas::new() }
    }

    /// The (optionally box-blurred) brightness at a pixel, honoring the
    /// inversion flag.
    fn brightness_at(&self, column: usize, row: usize) -> (b: Fx)
        requires
            self.wf(),
            column < self.input_image.width,
            row < self.input_image.height,
        ensures
            b == brightness_spec(
                self.input_image,
                self.settings,
                column as int,
                row as int,
            ),
    {
        let radius: usize = self.settings.box_blur_radius;
        let raw: Fx = if radius == 0 {
            self.input_image.get_pixel(column, row).value()
        } else {
            let w: usize = self.input_image.get_width();
            let h: usize = self.input_image.get_height();
            let x0: usize = if column > radius {
                column - radius
            } else {
                0
            };
            let x1: usize = if column + radius - 1 < w {
                column + radius - 1
            } else {
                w - 1
            };
            let y0: usize = if row > radius {
                row - radius
            } else {
                0
            };
            let y1: usize = if row + radius - 1 < h {
                row + radius - 1
            } else {
                h - 1
            };
            let mut sum: Fx = 0;
            let mut x: usize = x0;
            while x <= x1
                invariant
                    self.wf(),
                    x0 <= x <= x1 + 1,
                    x1 < self.input_image.width,
                    y0 <= y1 < self.input_image.height,
                    sum == win_sum(
                        self.input_image,
                        x0 as int,
                        x as int - 1,
                        y0 as int,
                        y1 as int,
                        0,
                    ),
                decreases x1 + 1 - x,
            {
                let ghost outer_acc = sum;
                let mut y: usize = y0;
                while y <= y1
                    invariant
                        self.wf(),
                        x <= x1 < self.input_image.width,
                        y0 <= y <= y1 + 1,
                        y1 < self.input_image.height,
                        sum == col_sum(
                            self.input_image,
                            x as int,
                            y0 as int,
                            y as int - 1,
                            outer_acc,
                        ),
                    decreases y1 + 1 - y,
                {
                    sum = fx_add(sum, self.input_image.get_pixel(x, y).value());
                    proof {
                        lemma_col_sum_extend(
                            self.input_image,
                            x as int,
                            y0 as int,
                            y as int,
                            outer_acc,
                        );
                        assert(pixel_value(self.input_image, x as int, y as int)
                            == self.input_image.image@[
                            (y as int) * (self.input_image.width as int) + (x as int)
                        ].value());
                    }
                    y = y + 1;
                }
                proof {
                    lemma_win_sum_extend(
                        self.input_image,
                        x0 as int,
                        x as int,
                        y0 as int,
                        y1 as int,
                        0,
                    );
                }
                x = x + 1;
            }
            let k: i64 = 2 * (radius as i64);
            proof {
                assert(0 <= (k as int) * (k as int) <= 3600000000) by (nonlinear_arith)
                    requires 0 <= k as int <= 60000;
            }
            let kk: i64 = k * k;
            fx_div(sum, kk * 65536)
        };
        if self.settings.invert_brightness {
            fx_sub(FX_ONE, raw)
        } else {
            raw
        }
    }

    /// Traces every retained row: the canvas is extended by exactly the
    /// segments of [`wave_segments`], in order, point for point.
    pub fn run(&mut self)
        requires
            old(self).wf(),
        ensures
            final(self).wf(),
            final(self).settings == old(self).settings,
            final(self).input_image == old(self).input_image,
            final(self).canvas@.len() == old(self).canvas@.len() + wave_segments(
                old(self).input_image,
                old(self).settings,
            ).len(),
            forall|i: int|
                0 <= i < wave_segments(old(self).input_image, old(self).settings).len()
                    ==> is_segment_shape(
                    #[trigger] final(self).canvas@[old(self).canvas@.len() + i],
                    wave_segments(old(self).input_image, old(self).settings)[i],
                ),
    {
        let noop = |_done: usize, _total: usize| {
        };
        self.run_with_progress(&noop);
    }

    /// Traces every retained row, reporting progress before each row as
    /// (row, height); the canvas is extended by exactly the segments of
    /// [`wave_segments`], in order, point for point.
    pub fn run_with_progress<F: Fn(usize, usize)>(&mut self, before_iter: &F)
        requires
            old(self).wf(),
            forall|i: usize, n: usize| before_iter.requires((i, n)),
        ensures
            final(self).wf(),
            final(self).settings == old(self).settings,
            final(self).input_image == old(self).input_image,
            final(self).canvas@.len() == old(self).canvas@.len() + wave_segments(
                old(self).input_image,
                old(self).settings,
            ).len(),
            forall|i: int|
                0 <= i < wave_segments(old(self).input_image, old(self).settings).len()
                    ==> is_segment_shape(
                    #[trigger] final(self).canvas@[old(self).canvas@.len() + i],
                    wave_segments(old(self).input_image, old(self).settings)[i],
                ),
    {
        let ghost img0 = self.input_image;
        let ghost s0 = self.settings;
        let ghost base = self.canvas@.len() as int;
        let ghost full = wave_segments(img0, s0);
        let ghost mut emitted: Seq<(Seq<V2>, Stroke)> = Seq::empty();
        let w: usize = self.input_image.get_width();
        let h: usize = self.input_image.get_height();
        let mut row: usize = 0;
        while row < h
            invariant
                self.wf(),
                self.settings == s0,
                self.input_image == img0,
                w == self.input_image.width,
                h == self.input_image.height,
                forall|i: usize, n: usize| before_iter.requires((i, n)),
                full == rows_walk(img0, s0, row as int, emitted),
                self.canvas@.len() == base + emitted.len(),
                base == old(self).canvas@.len(),
                forall|i: int|
                    0 <= i < emitted.len() ==> is_segment_shape(
                        #[trigger] self.canvas@[base + i],
                        emitted[i],
                    ),
                row <= h + self.settings.skip_rows,
            decreases h + 1 + self.settings.skip_rows - row,
        {
            before_iter(row, h);
            let mut phase: Fx = 0;
            let mut line_points: Vec<V2> = Vec::new();
            let mut column: usize = 0;
            while column < w
                invariant
                    self.wf(),
                    self.settings == s0,
                    self.input_image == img0,
                    w == self.input_image.width,
                    h == self.input_image.height,
                    row < h,
                    full == rows_walk(
                        img0,
                        s0,
                        row as int + 1 + (s0.skip_rows as int),
                        row_walk(
                            img0,
                            s0,
                            row as int,
                            column as int,
                            phase,
                            line_points@,
                            emitted,
                        ),
                    ),
                    self.canvas@.len() == base + emitted.len(),
                    base == old(self).canvas@.len(),
                    forall|i: int|
                        0 <= i < emitted.len() ==> is_segment_shape(
                            #[trigger] self.canvas@[base + i],
                            emitted[i],
                        ),
                    column <= w + self.settings.skip_columns,
                decreases w + 1 + self.settings.skip_columns - column,
            {
                let ghost phase_in = phase;
                let ghost pending_in = line_points@;
                let ghost emitted_in = emitted;
                let b: Fx = self.brightness_at(column, row);
                if b >= self.settings.brightness_threshold {
                    let delta: Fx = fx_mul(b, self.settings.frequency_multiplier);
                    let advance: Fx = fx_mul(
                        delta,
                        ((self.settings.skip_columns as i64) + 1) * 65536,
                    );
                    phase = fx_mod_turn(fx_add(phase, advance));
                    proof {
                        assert(phase == mod_turn(fx_add(phase_in, advance)));
                    }
                    let y_off: Fx = fx_mul(fx_sin(phase), self.settings.amplitude_multiplier);
                    let p = V2 {
                        x: fx_div(fx_sub((column as i64) * 65536, (w as i64) * 32768), major_half(w, h)),
                        y: fx_neg(
                            fx_div(
                                fx_sub(
                                    fx_add((row as i64) * 65536, y_off),
                                    (h as i64) * 32768,
                                ),
                                major_half(w, h),
                            ),
                        ),
                    };
                    proof {
                        assert(p == wave_point(img0, s0, column as int, row as int, phase));
                    }
                    line_points.push(p);
                    if self.settings.stroke_with_frequency && line_points.len() >= 2 {
                        let width: Fx = fx_mul(
                            fx_mul(self.settings.stroke.width, delta),
                            655360,
                        );
                        let stroke = Stroke {
                            color: self.settings.stroke.color,
                            width,
                            line_end: self.settings.stroke.line_end,
                        };
                        proof {
                            assert(stroke == swf_stroke(s0, delta));
                        }
                        let ghost seg = (line_points@, stroke);
                        self.canvas.draw_shape(line_points, stroke);
                        proof {
                            emitted = emitted.push(seg);
                            assert(is_segment_shape(self.canvas@.last(), seg));
                        }
                        line_points = Vec::new();
                        line_points.push(p);
                        proof {
                            assert(line_points@ =~= seq![p]);
                        }
                    }
                } else {
                    if line_points.len() >= 2 {
                        let ghost seg = (line_points@, s0.stroke);
                        self.canvas.draw_shape(line_points, self.settings.stroke);
                        proof {
                            emitted = emitted.push(seg);
                            assert(is_segment_shape(self.canvas@.last(), seg));
                        }
                        line_points = Vec::new();
                    } else if line_points.len() > 0 {
                        line_points = Vec::new();
                    }
                    proof {
                        assert(line_points@ =~= Seq::<V2>::empty());
                    }
                }
                proof {
                    assert(row_walk(
                        img0,
                        s0,
                        row as int,
                        column as int,
                        phase_in,
                        pending_in,
                        emitted_in,
                    ) == row_walk(
                        img0,
                        s0,
                        row as int,
                        column as int + 1 + (s0.skip_columns as int),
                        phase,
                        line_points@,
                        emitted,
                    ));
                }
                column = column + 1 + self.settings.skip_columns;
            }
            if line_points.len() >= 2 {
                let ghost seg = (line_points@, s0.stroke);
                self.canvas.draw_shape(line_points, self.settings.stroke);
                proof {
                    emitted = emitted.push(seg);
                    assert(is_segment_shape(self.canvas@.last(), seg));
                }
            }
            row = row + 1 + self.settings.skip_rows;
        }
        proof {
            assert(full == emitted);
        }
    }
}

/// Half the smaller image dimension, in fixed-point pixels.
#[verifier::allow_in_spec]
fn major_half(w: usize, h: usize) -> Fx
    requires
        w <= 0x7fffffff,
        h <= 0x7fffffff,
    returns
        ((((if w < h { w } else { h }) as int) * 32768) as i64),
{
    let major_px: usize = if w < h {
        w
    } else {
        h
    };
    (major_px as i64) * 32768
}

/// Extending a column fold by one value applies one more saturating add.
proof fn lemma_col_sum_extend(img: RasterCanvas, x: int, y0: int, y1: int, acc: i64)
    requires
        y0 <= y1,
    ensures
        col_sum(img, x, y0, y1, acc) == fx_add(
            col_sum(img, x, y0, y1 - 1, acc),
            pixel_value(img, x, y1),
        ),
    decreases y1 - y0,
{
    let a2 = fx_add(acc, pixel_value(img, x, y0));
    if y0 < y1 {
        lemma_col_sum_extend(img, x, y0 + 1, y1, a2);
        assert(col_sum(img, x, y0, y1, acc) == col_sum(img, x, y0 + 1, y1, a2));
        assert(col_sum(img, x, y0, y1 - 1, acc) == col_sum(img, x, y0 + 1, y1 - 1, a2));
    } else {
        assert(col_sum(img, x, y0, y1, acc) == col_sum(img, x, y0 + 1, y1, a2));
        assert(col_sum(img, x, y0 + 1, y1, a2) == a2);
        assert(col_sum(img, x, y0, y1 - 1, acc) == acc);
    }
}

/// Extending a window fold by one column folds that column onto it.
proof fn lemma_win_sum_extend(img: RasterCanvas, x0: int, x1: int, y0: int, y1: int, acc: i64)
    requires
        x0 <= x1,
    ensures
        win_sum(img, x0, x1, y0, y1, acc) == col_sum(
            img,
            x1,
            y0,
            y1,
            win_sum(img, x0, x1 - 1, y0, y1, acc),
        ),
    decreases x1 - x0,
{
    let a2 = col_sum(img, x0, y0, y1, acc);
    if x0 < x1 {
        lemma_win_sum_extend(img, x0 + 1, x1, y0, y1, a2);
        assert(win_sum(img, x0, x1, y0, y1, acc) == win_sum(img, x0 + 1, x1, y0, y1, a2));
        assert(win_sum(img, x0, x1 - 1, y0, y1, acc) == win_sum(
            img, x0 + 1, x1 - 1, y0, y1, a2));
    } else {
        assert(win_sum(img, x0, x1, y0, y1, acc) == win_sum(img, x0 + 1, x1, y0, y1, a2));
        assert(win_sum(img, x0 + 1, x1, y0, y1, a2) == a2);
        assert(win_sum(img, x0, x1 - 1, y0, y1, acc) == acc);
    }
}

} // verus!
