//! Fragment sketchers: post-processing kernels run over an existing
//! canvas, shape by shape or pixel by pixel, independent of the sketch
//! that drew it.

use crate::canvas::VectorCanvas;
use crate::color::Color;
use crate::raster::RasterCanvas;
use crate::shape::Shape;
use vstd::prelude::*;

verus! {

/// Whether `out` is something the kernel may return for the pixel at
/// `(x, y)` with row-major index `i`, given the buffer contents `src`.
pub open spec fn kernel_output<F: Fn(usize, usize, usize, &Vec<Color>) -> Color>(
    kernel: F,
    x: usize,
    y: usize,
    i: usize,
    src: Seq<Color>,
    out: Color,
) -> bool {
    exists|v: Vec<Color>| v@ == src && #[trigger] call_ensures(kernel, (x, y, i, &v), out)
}

/// The in-place kernel pass over a `w` by `h` grid, from the `k`-th
/// visited cell on: cells are visited column by column (`x = k / h`,
/// `y = k % h`), each call sees the buffer exactly as the earlier calls
/// left it, and `fin` is the buffer the pass ends with.
pub open spec fn kernel_pass<F: Fn(usize, usize, usize, &Vec<Color>) -> Color>(
    kernel: F,
    w: usize,
    h: usize,
    k: int,
    cur: Seq<Color>,
    fin: Seq<Color>,
) -> bool
    decreases (if k >= (w as int) * (h as int) { 0int } else { (w as int) * (h as int) - k }),
{
    if k < 0 || k >= (w as int) * (h as int) {
        fin == cur
    } else {
        let x = k / (h as int);
        let y = k % (h as int);
        exists|c: Color|
            #[trigger] kernel_output(
                kernel,
                x as usize,
                y as usize,
                ((y * (w as int) + x) as usize),
                cur,
                c,
            ) && kernel_pass(kernel, w, h, k + 1, cur.update(y * (w as int) + x, c), fin)
    }
}

/// Runs a kernel over every pixel of a raster canvas, like a
/// post-processing fragment shader: the kernel sees the coordinates, the
/// row-major index and the live buffer, so later calls observe what
/// earlier calls wrote.
pub struct RasterFragmentSketcher<F> where F: Fn(usize, usize, usize, &Vec<Color>) -> Color {
    pub kernel: F,
    pub canvas: RasterCanvas,
}

impl<F> RasterFragmentSketcher<F> where F: Fn(usize, usize, usize, &Vec<Color>) -> Color {
    /// A sketcher over the canvas to rewrite.
    pub fn new(canvas: RasterCanvas, kernel: F) -> (s: RasterFragmentSketcher<F>)
        ensures
            s.canvas == canvas,
    {
        RasterFragmentSketcher { canvas, kernel }
    }

    /// Replaces every pixel, in visiting order, by the kernel's output
    /// over the buffer as the earlier calls left it; the whole pass is
    /// pinned by [`kernel_pass`]. The canvas keeps its dimensions.
    pub fn run(&mut self)
        requires
            old(self).canvas.wf(),
            forall|x: usize, y: usize, i: usize, v: &Vec<Color>|
                old(self).kernel.requires((x, y, i, v)),
        ensures
            final(self).canvas.wf(),
            final(self).canvas.width == old(self).canvas.width,
            final(self).canvas.height == old(self).canvas.height,
            kernel_pass(
                old(self).kernel,
                old(self).canvas.width,
                old(self).canvas.height,
                0,
                old(self).canvas.image@,
                final(self).canvas.image@,
            ),
    {
        let noop = |_done: usize, _total: usize| {
        };
        self.run_with_progress(&noop);
    }

    /// As [`Self::run`], reporting progress before each pixel as (its
    /// row-major index, the pixel count).
    pub fn run_with_progress<G: Fn(usize, usize)>(&mut self, before_iter: &G)
        requires
            old(self).canvas.wf(),
            forall|x: usize, y: usize, i: usize, v: &Vec<Color>|
                old(self).kernel.requires((x, y, i, v)),
            forall|i: usize, n: usize| before_iter.requires((i, n)),
        ensures
            final(self).canvas.wf(),
            final(self).canvas.width == old(self).canvas.width,
            final(self).canvas.height == old(self).canvas.height,
            kernel_pass(
                old(self).kernel,
                old(self).canvas.width,
                old(self).canvas.height,
                0,
                old(self).canvas.image@,
                final(self).canvas.image@,
            ),
    {
        let w: usize = self.canvas.get_width();
        let h: usize = self.canvas.get_height();
        let ghost orig = self.canvas.image@;
        let ghost kernel0 = self.kernel;
        let mut x: usize = 0;
        while x < w
            invariant
                x <= w,
                self.canvas.wf(),
                w == self.canvas.width,
                h == self.canvas.height,
                self.kernel == kernel0,
                kernel0 == old(self).kernel,
                forall|x2: usize, y2: usize, i2: usize, v: &Vec<Color>|
                    self.kernel.requires((x2, y2, i2, v)),
                forall|i2: usize, n2: usize| before_iter.requires((i2, n2)),
                forall|fin: Seq<Color>|
                    #[trigger] kernel_pass(
                        kernel0,
                        w,
                        h,
                        (x as int) * (h as int),
                        self.canvas.image@,
                        fin,
                    ) ==> kernel_pass(kernel0, w, h, 0, orig, fin),
            decreases w - x,
        {
            let mut y: usize = 0;
            while y < h
                invariant
                    x < w,
                    y <= h,
                    self.canvas.wf(),
                    w == self.canvas.width,
                    h == self.canvas.height,
                    self.kernel == kernel0,
                    kernel0 == old(self).kernel,
                    forall|x2: usize, y2: usize, i2: usize, v: &Vec<Color>|
                        self.kernel.requires((x2, y2, i2, v)),
                    forall|i2: usize, n2: usize| before_iter.requires((i2, n2)),
                    forall|fin: Seq<Color>|
                        #[trigger] kernel_pass(
                            kernel0,
                            w,
                            h,
                            (x as int) * (h as int) + (y as int),
                            self.canvas.image@,
                            fin,
                        ) ==> kernel_pass(kernel0, w, h, 0, orig, fin),
                decreases h - y,
            {
                // The buffer length is a usize, so the row-major index
                // fits one.
                let n: usize = self.canvas.image.len();
                proof {
                    assert(n == self.canvas.image@.len());
                    assert(0 <= (y as int) * (w as int) + (x as int) < (w as int) * (h as int))
                        by (nonlinear_arith)
                        requires
                            0 <= (x as int) < (w as int),
                            0 <= (y as int) < (h as int),
                    ;
                }
                let i: usize = y * w + x;
                before_iter(i, n);
                let ghost vcall = self.canvas.image;
                let c: Color = (self.kernel)(x, y, i, self.canvas.get_raw());
                self.canvas.set_pixel(x, y, c);
                proof {
                    let kprev = (x as int) * (h as int) + (y as int);
                    assert(0 <= kprev < (w as int) * (h as int)) by (nonlinear_arith)
                        requires
                            0 <= (x as int) < (w as int),
                            0 <= (y as int) < (h as int),
                            kprev == (x as int) * (h as int) + (y as int),
                    ;
                    vstd::arithmetic::div_mod::lemma_fundamental_div_mod_converse(
                        kprev, h as int, x as int, y as int);
                    assert(kprev / (h as int) == x as int);
                    assert(kprev % (h as int) == y as int);
                    assert(kernel_output(kernel0, x, y, i, vcall@, c)) by {
                        assert(call_ensures(kernel0, (x, y, i, &vcall), c));
                    }
                    assert forall|fin: Seq<Color>|
                        #[trigger] kernel_pass(
                            kernel0,
                            w,
                            h,
                            kprev + 1,
                            self.canvas.image@,
                            fin,
                        ) implies kernel_pass(kernel0, w, h, 0, orig, fin) by {
                        assert(self.canvas.image@ == vcall@.update(
                            (y as int) * (w as int) + (x as int),
                            c,
                        ));
                        assert(kernel_pass(kernel0, w, h, kprev, vcall@, fin)) by {
                            assert(kernel_pass(
                                kernel0,
                                w,
                                h,
                                kprev + 1,
                                vcall@.update((y as int) * (w as int) + (x as int), c),
                                fin,
                            ));
                            assert(kernel_output(
                                kernel0,
                                (kprev / (h as int)) as usize,
                                (kprev % (h as int)) as usize,
                                (((kprev % (h as int)) * (w as int) + kprev / (h as int))
                                    as usize),
                                vcall@,
                                c,
                            ));
                        }
                    }
                }
                y = y + 1;
            }
            proof {
                assert((x as int) * (h as int) + (h as int) == ((x as int) + 1) * (h as int))
                    by (nonlinear_arith);
            }
            x = x + 1;
        }
        proof {
            assert(kernel_pass(
                kernel0,
                w,
                h,
                (w as int) * (h as int),
                self.canvas.image@,
                self.canvas.image@,
            ));
        }
    }
}

/// Runs a kernel over every shape of a vector canvas, replacing each with
/// what the kernel yields.
pub struct VectorFragmentSketcher<F> where F: Fn(Shape) -> Shape {
    pub kernel: F,
    pub canvas: VectorCanvas,
}

impl<F> VectorFragmentSketcher<F> where F: Fn(Shape) -> Shape {
    /// A sketcher over the canvas to rewrite.
    pub fn new(canvas: VectorCanvas, kernel: F) -> (s: VectorFragmentSketcher<F>)
        ensures
            s.canvas@ == canvas@,
    {
        VectorFragmentSketcher { canvas, kernel }
    }

    /// Replaces every shape, in place and in order, by a kernel output
    /// for the shape that stood there.
    pub fn run(&mut self)
        requires
            forall|sh: Shape| old(self).kernel.requires((sh,)),
        ensures
            final(self).canvas@.len() == old(self).canvas@.len(),
            forall|i: int|
                0 <= i < old(self).canvas@.len() ==> #[trigger] call_ensures(
                    old(self).kernel,
                    (old(self).canvas@[i],),
                    final(self).canvas@[i],
                ),
    {
        let noop = |_done: usize, _total: usize| {
        };
        self.run_with_progress(&noop);
    }

    /// As [`Self::run`], reporting progress before each element as (its
    /// index, the element count).
    pub fn run_with_progress<G: Fn(usize, usize)>(&mut self, before_iter: &G)
        requires
            forall|sh: Shape| old(self).kernel.requires((sh,)),
            forall|i: usize, n: usize| before_iter.requires((i, n)),
        ensures
            final(self).canvas@.len() == old(self).canvas@.len(),
            forall|i: int|
                0 <= i < old(self).canvas@.len() ==> #[trigger] call_ensures(
                    old(self).kernel,
                    (old(self).canvas@[i],),
                    final(self).canvas@[i],
                ),
    {
        let ghost orig = self.canvas@;
        let n: usize = self.canvas.len();
        let mut src: Vec<Shape> = Vec::new();
        core::mem::swap(&mut self.canvas.shapes, &mut src);
        let mut out: Vec<Shape> = Vec::new();
        while src.len() > 0
            invariant
                out@.len() + src@.len() == orig.len(),
                n == orig.len(),
                src@ == orig.skip(out@.len() as int),
                self.kernel == old(self).kernel,
                forall|sh: Shape| self.kernel.requires((sh,)),
                forall|i2: usize, n2: usize| before_iter.requires((i2, n2)),
                forall|i: int|
                    0 <= i < out@.len() ==> #[trigger] call_ensures(
                        old(self).kernel,
                        (orig[i],),
                        out@[i],
                    ),
            decreases src@.len(),
        {
            let ghost k = out@.len() as int;
            before_iter(out.len(), n);
            let sh: Shape = src.remove(0);
            proof {
                assert(sh == orig.skip(k)[0]);
                assert(sh == orig[k]);
            }
            out.push((self.kernel)(sh));
            proof {
                assert(src@ =~= orig.skip(k + 1));
            }
        }
        self.canvas.shapes = out;
    }
}

} // verus!
