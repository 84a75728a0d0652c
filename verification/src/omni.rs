//! A canvas that is either vector or raster, convertible on demand.
//!
//! The raster-to-vector direction expands every pixel into a filled unit
//! square, one polygon per pixel. The vector-to-raster direction renders
//! the scene to SVG text with the verified backend and hands the text to
//! the resvg rasterizer.

use crate::canvas::VectorCanvas;
use crate::color::Color;
use crate::geom::{rect_polygon_points, rect_polygon_spec, V2};
use crate::raster::RasterCanvas;
use crate::renderer::Renderer;
use crate::shape::{Polygon, Shape};
use crate::svg::{SvgRenderer, SvgRendererSettings};
use vstd::prelude::*;

verus! {

/// Which algorithm turns a raster canvas into vector shapes.
#[derive(Clone, Copy, PartialEq, Eq, Structural, Debug)]
pub enum VectorizerStyle {
    /// One filled unit square per source pixel.
    Pixels,
}

/// A canvas in either representation.
#[derive(Debug)]
pub enum OmniCanvas {
    Vector { inner: VectorCanvas },
    Raster { inner: RasterCanvas },
}

/// Whether a shape is the unit-square expansion of the pixel at `(x, y)`.
pub open spec fn pixel_square_ok(sh: Shape, x: int, y: int, color: Color) -> bool {
    match sh {
        Shape::Polygon(p) => {
            &&& p.points@ == rect_polygon_spec(
                V2 { x: (x * 65536) as i64, y: (y * 65536) as i64 },
                V2 { x: ((x + 1) * 65536) as i64, y: ((y + 1) * 65536) as i64 },
            )
            &&& p.fill == Some(color)
            &&& p.stroke is None
        },
        _ => false,
    }
}

#[verifier::external_type_specification]
#[verifier::external_body]
pub struct ExUsvgOptions<'a>(resvg::usvg::Options<'a>);

#[verifier::external_type_specification]
#[verifier::external_body]
pub struct ExUsvgTree(resvg::usvg::Tree);

#[verifier::external_type_specification]
#[verifier::external_body]
pub struct ExUsvgError(resvg::usvg::Error);

/// Relies on usvg's `Options::default`: the default parsing options.
#[verifier::external_body]
fn svg_options() -> resvg::usvg::Options<'static> {
    resvg::usvg::Options::default()
}

/// Relies on usvg's `Tree::from_str`: parses SVG text into a render tree,
/// or reports why it cannot.
#[verifier::external_body]
fn parse_svg_tree(text: &str, opt: &resvg::usvg::Options) -> Result<resvg::usvg::Tree, resvg::usvg::Error> {
    resvg::usvg::Tree::from_str(text, opt)
}

/// Relies on tiny_skia's `Pixmap::new` and `Pixmap::take` and on resvg's
/// `render`: a `width` by `height` RGBA surface holds exactly
/// `width * height * 4` bytes, rendering only paints into it, and a
/// surface exists for every nonzero size up to the crate's documented
/// width cap of `i32::MAX / 4`. `None` comes back only outside that
/// window.
#[verifier::external_body]
fn rasterize_tree(tree: &resvg::usvg::Tree, width: u32, height: u32) -> (r: Option<Vec<u8>>)
    ensures
        r matches Some(b) ==> b@.len() == 4 * ((width as int) * (height as int)),
        1 <= width <= 536870911 && 1 <= height <= 536870911 ==> r is Some,
{
    match resvg::tiny_skia::Pixmap::new(width, height) {
        None => None,
        Some(mut pixmap) => {
            resvg::render(tree, resvg::tiny_skia::Transform::identity(), &mut pixmap.as_mut());
            Some(pixmap.take())
        },
    }
}

/// One filled unit square per source pixel, in pixel coordinates,
/// columns outermost.
fn expand_pixels(inner: &RasterCanvas, style: VectorizerStyle) -> (v: VectorCanvas)
    requires
        inner.wf(),
        inner.width <= 0x7fffffff,
        inner.height <= 0x7fffffff,
    ensures
        v@.len() == inner.width * inner.height,
        forall|x: int, y: int|
            0 <= x < inner.width && 0 <= y < inner.height ==> pixel_square_ok(
                #[trigger] v@[x * inner.height + y],
                x,
                y,
                inner.image@[y * inner.width + x],
            ),
{
    match style {
                    VectorizerStyle::Pixels => {
                        let mut v = VectorCanvas::new();
                        let w: usize = inner.get_width();
                        let h: usize = inner.get_height();
                        let mut x: usize = 0;
                        while x < w
                            invariant
                                x <= w,
                                inner.wf(),
                                w == inner.width,
                                w <= 0x7fffffff,
                                h == inner.height,
                                h <= 0x7fffffff,
                                v@.len() == x * h,
                                forall|x2: int, y2: int|
                                    0 <= x2 < x && 0 <= y2 < h ==> pixel_square_ok(
                                        #[trigger] v@[x2 * h + y2],
                                        x2,
                                        y2,
                                        inner.image@[y2 * w + x2],
                                    ),
                            decreases w - x,
                        {
                            let mut y: usize = 0;
                            while y < h
                                invariant
                                    x < w,
                                    y <= h,
                                    inner.wf(),
                                    w == inner.width,
                                    w <= 0x7fffffff,
                                    h == inner.height,
                                    h <= 0x7fffffff,
                                    v@.len() == x * h + y,
                                    forall|x2: int, y2: int|
                                        0 <= x2 < x && 0 <= y2 < h ==> pixel_square_ok(
                                            #[trigger] v@[x2 * h + y2],
                                            x2,
                                            y2,
                                            inner.image@[y2 * w + x2],
                                        ),
                                    forall|y2: int|
                                        0 <= y2 < y ==> pixel_square_ok(
                                            #[trigger] v@[x * h + y2],
                                            x as int,
                                            y2,
                                            inner.image@[y2 * w + x as int],
                                        ),
                                decreases h - y,
                            {
                                let color: Color = inner.get_pixel(x, y);
                                let pts: Vec<V2> = rect_polygon_points(
                                    V2 { x: (x as i64) * 65536, y: (y as i64) * 65536 },
                                    V2 {
                                        x: ((x as i64) + 1) * 65536,
                                        y: ((y as i64) + 1) * 65536,
                                    },
                                );
                                v.draw(
                                    Shape::Polygon(
                                        Polygon {
                                            points: pts,
                                            fill: Some(color),
                                            stroke: None,
                                        },
                                    ),
                                );
                                proof {
                                    lemma_pixel_grid(x as int, y as int, w as int, h as int);
                                    assert forall|x2: int, y2: int|
                                        0 <= x2 < x && 0 <= y2 < h implies pixel_square_ok(
                                        #[trigger] v@[x2 * h + y2],
                                        x2,
                                        y2,
                                        inner.image@[y2 * w + x2],
                                    ) by {
                                        assert(0 <= x2 * h + y2 < (x as int) * h)
                                            by (nonlinear_arith)
                                            requires
                                                0 <= x2 < x as int,
                                                0 <= y2 < h as int,
                                        ;
                                    }
                                }
                                y = y + 1;
                            }
                            proof {
                                assert((x as int + 1) * (h as int) == (x as int) * (h as int)
                                    + (h as int)) by (nonlinear_arith);
                            }
                            x = x + 1;
                        }
                        proof {
                            assert((w as int) * (h as int) == (inner.width as int)
                                * (inner.height as int));
                        }
                        v
                    },
    }
}

impl OmniCanvas {
    /// Consumes the canvas and yields the vector form: a vector canvas
    /// passes through unchanged, and a raster canvas expands to one filled
    /// unit square per pixel, in pixel coordinates, columns outermost.
    pub fn into_vector_canvas(self, style: VectorizerStyle) -> (v: VectorCanvas)
        requires
            self matches OmniCanvas::Raster { inner } ==> inner.wf() && inner.width
                <= 0x7fffffff && inner.height <= 0x7fffffff,
        ensures
            self matches OmniCanvas::Vector { inner } ==> v == inner,
            self matches OmniCanvas::Raster { inner } ==> {
                &&& v@.len() == inner.width * inner.height
                &&& forall|x: int, y: int|
                    0 <= x < inner.width && 0 <= y < inner.height ==> pixel_square_ok(
                        #[trigger] v@[x * inner.height + y],
                        x,
                        y,
                        inner.image@[y * inner.width + x],
                    )
            },
    {
        match self {
            OmniCanvas::Vector { inner } => inner,
            OmniCanvas::Raster { inner } => expand_pixels(&inner, style),
        }
    }

    /// Yields the vector form without consuming the canvas: a vector
    /// canvas is copied shape for shape, and a raster canvas expands as
    /// in [`Self::into_vector_canvas`].
    pub fn as_vector_canvas(&self, style: VectorizerStyle) -> (v: VectorCanvas)
        requires
            self matches OmniCanvas::Raster { inner } ==> inner.wf() && inner.width
                <= 0x7fffffff && inner.height <= 0x7fffffff,
        ensures
            self matches OmniCanvas::Vector { inner } ==> v@.len() == inner@.len() && (forall|
                i: int,
            |
                0 <= i < inner@.len() ==> crate::shape::shape_like(
                    #[trigger] v@[i],
                    inner@[i],
                )),
            self matches OmniCanvas::Raster { inner } ==> {
                &&& v@.len() == inner.width * inner.height
                &&& forall|x: int, y: int|
                    0 <= x < inner.width && 0 <= y < inner.height ==> pixel_square_ok(
                        #[trigger] v@[x * inner.height + y],
                        x,
                        y,
                        inner.image@[y * inner.width + x],
                    )
            },
    {
        match self {
            OmniCanvas::Vector { inner } => crate::canvas::copy_canvas(inner),
            OmniCanvas::Raster { inner } => expand_pixels(inner, style),
        }
    }

    /// Consumes the canvas and yields the raster form at the given
    /// resolution: a raster canvas passes through unchanged, and a vector
    /// canvas is rendered to SVG text and rasterized by resvg. `None`
    /// comes back only when the SVG parser declines the text or the size
    /// lies outside the rasterizer's window.
    pub fn into_raster_canvas(
        self,
        width: u32,
        height: u32,
        background: Option<Color>,
    ) -> (r: Option<RasterCanvas>)
        requires
            4 * ((width as int) * (height as int)) <= usize::MAX,
            self matches OmniCanvas::Raster { inner } ==> inner.wf(),
        ensures
            self matches OmniCanvas::Raster { inner } ==> r == Some(inner),
            r matches Some(rc) ==> rc.wf(),
            self matches OmniCanvas::Vector { inner } ==> (r matches Some(rc)
                ==> rc.width == width && rc.height == height),
    {
        match self {
            OmniCanvas::Raster { inner } => Some(inner),
            OmniCanvas::Vector { inner } => inner.render_rgb(width, height, background),
        }
    }

    /// Yields the raster form without consuming the canvas: a raster
    /// canvas is copied pixel for pixel, and a vector canvas rasterizes
    /// as in [`Self::into_raster_canvas`].
    pub fn as_raster_canvas(
        &self,
        width: u32,
        height: u32,
        background: Option<Color>,
    ) -> (r: Option<RasterCanvas>)
        requires
            4 * ((width as int) * (height as int)) <= usize::MAX,
            self matches OmniCanvas::Raster { inner } ==> inner.wf(),
        ensures
            self matches OmniCanvas::Raster { inner } ==> (r matches Some(rc)
                && rc.width == inner.width && rc.height == inner.height && rc.image@
                == inner.image@),
            r matches Some(rc) ==> rc.wf(),
            self matches OmniCanvas::Vector { inner } ==> (r matches Some(rc)
                ==> rc.width == width && rc.height == height),
    {
        match self {
            OmniCanvas::Raster { inner } => Some(inner.duplicate()),
            OmniCanvas::Vector { inner } => inner.render_rgb(width, height, background),
        }
    }
}

impl VectorCanvas {
    /// The canvas rasterized at the given size: rendered to SVG text by
    /// the verified backend, then painted by resvg. `None` comes back
    /// when the rasterizer cannot handle the scene or the size.
    pub fn render_rgb(
        &self,
        width: u32,
        height: u32,
        background: Option<Color>,
    ) -> (r: Option<RasterCanvas>)
        requires
            4 * ((width as int) * (height as int)) <= usize::MAX,
        ensures
            r matches Some(rc) ==> rc.wf() && rc.width == width && rc.height == height,
    {
        let settings = SvgRendererSettings { width, height, background, precise: true, square: false };
        let svg: String = self.render(SvgRenderer::new(settings));
        let opt: resvg::usvg::Options<'static> = svg_options();
        let tree: resvg::usvg::Tree = match parse_svg_tree(svg.as_str(), &opt) {
            Ok(t) => t,
            Err(_) => {
                return None;
            },
        };
        let bytes: Vec<u8> = match rasterize_tree(&tree, width, height) {
            Some(b) => b,
            None => {
                return None;
            },
        };
        Some(RasterCanvas::from_rgba8(width as usize, height as usize, &bytes))
    }
}

impl From<VectorCanvas> for OmniCanvas {
    fn from(canvas: VectorCanvas) -> (r: OmniCanvas) {
        OmniCanvas::Vector { inner: canvas }
    }
}

impl vstd::std_specs::convert::FromSpecImpl<VectorCanvas> for OmniCanvas {
    open spec fn obeys_from_spec() -> bool {
        true
    }

    open spec fn from_spec(t: VectorCanvas) -> OmniCanvas {
        OmniCanvas::Vector { inner: t }
    }
}

impl From<RasterCanvas> for OmniCanvas {
    fn from(canvas: RasterCanvas) -> (r: OmniCanvas) {
        OmniCanvas::Raster { inner: canvas }
    }
}

impl vstd::std_specs::convert::FromSpecImpl<RasterCanvas> for OmniCanvas {
    open spec fn obeys_from_spec() -> bool {
        true
    }

    open spec fn from_spec(t: RasterCanvas) -> OmniCanvas {
        OmniCanvas::Raster { inner: t }
    }
}

/// A pixel's slot stays inside the grid of slots.
proof fn lemma_pixel_grid(x: int, y: int, w: int, h: int)
    requires
        0 <= x < w,
        0 <= y < h,
    ensures
        0 <= x * h + y < w * h,
        x * h + (y + 1) == x * h + y + 1,
{
    assert(0 <= x * h + y < w * h) by (nonlinear_arith)
        requires
            0 <= x < w,
            0 <= y < h,
    ;
}

} // verus!
