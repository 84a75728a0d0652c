//! The SVG text backend.
//!
//! Shapes are mapped from camera space (`(-1, -1)` to `(1, 1)`, `+y` up) to
//! device pixels by `device = (camera + (1, offset)) * width/2`, with the
//! `y` axis flipped; the vertical offset is `height/width` in the
//! height-preserving sizing mode and one in the square mode. Every
//! coordinate is written in decimal; the `precise` flag chooses between
//! four fractional digits and rounding to whole pixels. The exact output
//! text is pinned down by [`svg_doc_str`].

use crate::color::{hex_str, Color};
use crate::fixed::{fx_add, fx_div, fx_mul, fx_sub, Fx, FX_ONE};
use crate::geom::{regular_polygon_points, regular_polygon_spec, V2};
use crate::renderer::Renderer;
use crate::shape::{Circle, Line, LineEnd, Polygon, RegularPolygon, Shape, Stroke};
use crate::text::{dec_str, fx_int_str, fx_str, push_dec, push_fx, push_fx_int};
use vstd::prelude::*;
use vstd::string::StringExecFns;

verus! {

/// The SVG backend's configuration: output size in device pixels, an
/// optional background fill, the coordinate precision mode, and the
/// sizing mode: height-preserving maps the camera square onto the output
/// width and corrects the vertical center for the aspect ratio, while the
/// square mode keeps the camera square regardless of the output height.
#[derive(Clone, Copy, Debug)]
pub struct SvgRendererSettings {
    pub width: u32,
    pub height: u32,
    pub background: Option<Color>,
    pub precise: bool,
    pub square: bool,
}

/// The camera-to-device scale: half the output width, in fixed-point.
#[verifier::allow_in_spec]
pub fn device_scale(width: u32) -> Fx
    returns
        (((width as int) * 32768) as i64),
{
    (width as i64) * 32768
}

/// The vertical centering term: `height / width` in the height-preserving
/// mode, one in the square mode.
#[verifier::allow_in_spec]
pub fn device_offset_y(width: u32, height: u32, square: bool) -> Fx
    returns
        (if square {
            FX_ONE
        } else {
            fx_div(((height as int) * 65536) as i64, ((width as int) * 65536) as i64) as i64
        }),
{
    if square {
        FX_ONE
    } else {
        fx_div((height as i64) * 65536, (width as i64) * 65536)
    }
}

/// A camera-space point in device pixels, `y` flipped.
#[verifier::allow_in_spec]
pub fn device_point(p: V2, s: SvgRendererSettings) -> V2
    returns
        (V2 {
            x: fx_mul(fx_add(p.x, FX_ONE), device_scale(s.width)),
            y: fx_mul(
                fx_sub(device_offset_y(s.width, s.height, s.square), p.y),
                device_scale(s.width),
            ),
        }),
{
    V2 {
        x: fx_mul(fx_add(p.x, FX_ONE), device_scale(s.width)),
        y: fx_mul(
            fx_sub(device_offset_y(s.width, s.height, s.square), p.y),
            device_scale(s.width),
        ),
    }
}

/// A coordinate in the chosen precision mode.
pub open spec fn num_str(x: Fx, precise: bool) -> Seq<char> {
    if precise {
        fx_str(x as int)
    } else {
        fx_int_str(x as int)
    }
}

fn push_num(out: &mut String, x: Fx, precise: bool)
    ensures
        final(out)@ == old(out)@ + num_str(x, precise),
{
    if precise {
        push_fx(out, x);
    } else {
        push_fx_int(out, x);
    }
}

/// One point of a `points` attribute: `x,y` and a trailing space.
pub open spec fn point_str(p: V2, s: SvgRendererSettings) -> Seq<char> {
    let d = device_point(p, s);
    num_str(d.x, s.precise) + ","@ + num_str(d.y, s.precise) + " "@
}

/// The body of a `points` attribute, in order.
pub open spec fn points_str(pts: Seq<V2>, s: SvgRendererSettings) -> Seq<char>
    decreases pts.len(),
{
    if pts.len() == 0 {
        Seq::empty()
    } else {
        points_str(pts.drop_last(), s) + point_str(pts.last(), s)
    }
}

fn push_points(out: &mut String, pts: &Vec<V2>, s: &SvgRendererSettings)
    ensures
        final(out)@ == old(out)@ + points_str(pts@, *s),
{
    let ghost start = out@;
    let mut i: usize = 0;
    while i < pts.len()
        invariant
            i <= pts@.len(),
            out@ == start + points_str(pts@.take(i as int), *s),
        decreases pts@.len() - i,
    {
        let d: V2 = device_point(pts[i], *s);
        push_num(out, d.x, s.precise);
        out.append(",");
        push_num(out, d.y, s.precise);
        out.append(" ");
        proof {
            assert(pts@.take(i as int + 1).drop_last() =~= pts@.take(i as int));
            assert(pts@.take(i as int + 1).last() == pts@[i as int]);
        }
        i = i + 1;
    }
    proof {
        assert(pts@.take(pts@.len() as int) =~= pts@);
    }
}

/// The text of a line-cap style.
pub open spec fn linecap_str(le: LineEnd) -> Seq<char> {
    match le {
        LineEnd::Butt => "butt"@,
        LineEnd::Round => "round"@,
    }
}

/// The fill attributes: a hex fill with optional opacity, or `none`.
pub open spec fn fill_attr_str(fill: Option<Color>, precise: bool) -> Seq<char> {
    match fill {
        Some(c) => "fill=\""@ + hex_str(c, false) + "\" "@ + (if c.a < FX_ONE {
            "fill-opacity=\""@ + fx_str(c.a as int) + "\" "@
        } else {
            Seq::<char>::empty()
        }),
        None => "fill=\"none\" "@,
    }
}

fn push_fill_attrs(out: &mut String, fill: &Option<Color>, precise: bool)
    ensures
        final(out)@ == old(out)@ + fill_attr_str(*fill, precise),
{
    let ghost start = out@;
    match fill {
        Some(c) => {
            out.append("fill=\"");
            c.push_hex(false, out);
            out.append("\" ");
            if c.a < FX_ONE {
                out.append("fill-opacity=\"");
                push_fx(out, c.a);
                out.append("\" ");
            }
        },
        None => {
            out.append("fill=\"none\" ");
        },
    }
    proof {
        assert(out@ =~= start + fill_attr_str(*fill, precise));
    }
}

/// The stroke attributes: hex color, device-space width, line cap, and an
/// optional opacity; nothing when there is no stroke.
pub open spec fn stroke_attr_str(st: Option<Stroke>, s: SvgRendererSettings) -> Seq<char> {
    match st {
        Some(k) => "stroke=\""@ + hex_str(k.color, false) + "\" stroke-width=\""@ + num_str(
            fx_mul(k.width, device_scale(s.width)),
            s.precise,
        ) + "\" stroke-linecap=\""@ + linecap_str(k.line_end) + "\" "@ + (if k.color.a < FX_ONE {
            "stroke-opacity=\""@ + fx_str(k.color.a as int) + "\" "@
        } else {
            Seq::<char>::empty()
        }),
        None => Seq::<char>::empty(),
    }
}

fn push_stroke_attrs(out: &mut String, st: &Option<Stroke>, s: &SvgRendererSettings)
    ensures
        final(out)@ == old(out)@ + stroke_attr_str(*st, *s),
{
    let ghost start = out@;
    match st {
        Some(k) => {
            out.append("stroke=\"");
            k.color.push_hex(false, out);
            out.append("\" stroke-width=\"");
            push_num(out, fx_mul(k.width, device_scale(s.width)), s.precise);
            out.append("\" stroke-linecap=\"");
            match k.line_end {
                LineEnd::Butt => out.append("butt"),
                LineEnd::Round => out.append("round"),
            }
            out.append("\" ");
            if k.color.a < FX_ONE {
                out.append("stroke-opacity=\"");
                push_fx(out, k.color.a);
                out.append("\" ");
            }
        },
        None => {},
    }
    proof {
        assert(out@ =~= start + stroke_attr_str(*st, *s));
    }
}

/// A `<polygon>` element over the given vertices.
pub open spec fn polygon_svg_str(
    pts: Seq<V2>,
    fill: Option<Color>,
    st: Option<Stroke>,
    s: SvgRendererSettings,
) -> Seq<char> {
    "<polygon points=\""@ + points_str(pts, s) + "\" "@ + fill_attr_str(fill, s.precise)
        + stroke_attr_str(st, s) + "/>"@
}

fn push_polygon_svg(
    out: &mut String,
    pts: &Vec<V2>,
    fill: &Option<Color>,
    st: &Option<Stroke>,
    s: &SvgRendererSettings,
)
    ensures
        final(out)@ == old(out)@ + polygon_svg_str(pts@, *fill, *st, *s),
{
    let ghost start = out@;
    out.append("<polygon points=\"");
    push_points(out, pts, s);
    out.append("\" ");
    push_fill_attrs(out, fill, s.precise);
    push_stroke_attrs(out, st, s);
    out.append("/>");
    proof {
        assert(out@ =~= start + polygon_svg_str(pts@, *fill, *st, *s));
    }
}

/// The text every scene element contributes to an SVG document.
pub trait VectorElement {
    /// The element's exact SVG text under the given settings.
    spec fn svg_model(&self, s: SvgRendererSettings) -> Seq<char>;

    /// Appends the element's SVG text.
    fn write_svg(&self, s: &SvgRendererSettings, out: &mut String)
        ensures
            final(out)@ == old(out)@ + self.svg_model(*s),
    ;
}

impl VectorElement for Line {
    open spec fn svg_model(&self, s: SvgRendererSettings) -> Seq<char> {
        "<polyline points=\""@ + points_str(self.points@, s) + "\" fill=\"none\" "@
            + stroke_attr_str(Some(self.stroke), s) + "/>"@
    }

    fn write_svg(&self, s: &SvgRendererSettings, out: &mut String) {
        let ghost start = out@;
        out.append("<polyline points=\"");
        push_points(out, &self.points, s);
        out.append("\" fill=\"none\" ");
        push_stroke_attrs(out, &Some(self.stroke), s);
        out.append("/>");
        proof {
            assert(out@ =~= start + self.svg_model(*s));
        }
    }
}

impl VectorElement for Polygon {
    open spec fn svg_model(&self, s: SvgRendererSettings) -> Seq<char> {
        polygon_svg_str(self.points@, self.fill, self.stroke, s)
    }

    fn write_svg(&self, s: &SvgRendererSettings, out: &mut String) {
        push_polygon_svg(out, &self.points, &self.fill, &self.stroke, s);
    }
}

impl VectorElement for RegularPolygon {
    open spec fn svg_model(&self, s: SvgRendererSettings) -> Seq<char> {
        polygon_svg_str(
            regular_polygon_spec(self.center, self.radius, self.rotation, self.sides as int),
            self.fill,
            self.stroke,
            s,
        )
    }

    fn write_svg(&self, s: &SvgRendererSettings, out: &mut String) {
        let pts: Vec<V2> = regular_polygon_points(
            self.center,
            self.radius,
            self.rotation,
            self.sides,
        );
        push_polygon_svg(out, &pts, &self.fill, &self.stroke, s);
    }
}

impl VectorElement for Circle {
    open spec fn svg_model(&self, s: SvgRendererSettings) -> Seq<char> {
        let d = device_point(self.center, s);
        "<circle cx=\""@ + num_str(d.x, s.precise) + "\" cy=\""@ + num_str(d.y, s.precise)
            + "\" r=\""@ + num_str(fx_mul(self.radius, device_scale(s.width)), s.precise)
            + "\" "@ + fill_attr_str(self.fill, s.precise) + stroke_attr_str(self.stroke, s)
            + "/>"@
    }

    #[verifier::rlimit(30)]
    fn write_svg(&self, s: &SvgRendererSettings, out: &mut String) {
        let ghost start = out@;
        let d: V2 = device_point(self.center, *s);
        out.append("<circle cx=\"");
        push_num(out, d.x, s.precise);
        out.append("\" cy=\"");
        push_num(out, d.y, s.precise);
        out.append("\" r=\"");
        push_num(out, fx_mul(self.radius, device_scale(s.width)), s.precise);
        out.append("\" ");
        push_fill_attrs(out, &self.fill, s.precise);
        push_stroke_attrs(out, &self.stroke, s);
        out.append("/>");
        proof {
            assert(out@ =~= start + self.svg_model(*s));
        }
    }
}

impl VectorElement for Shape {
    open spec fn svg_model(&self, s: SvgRendererSettings) -> Seq<char> {
        match self {
            Shape::Line(l) => l.svg_model(s),
            Shape::Polygon(p) => p.svg_model(s),
            Shape::RegularPolygon(rp) => rp.svg_model(s),
            Shape::Circle(c) => c.svg_model(s),
        }
    }

    fn write_svg(&self, s: &SvgRendererSettings, out: &mut String) {
        match self {
            Shape::Line(l) => l.write_svg(s, out),
            Shape::Polygon(p) => p.write_svg(s, out),
            Shape::RegularPolygon(rp) => rp.write_svg(s, out),
            Shape::Circle(c) => c.write_svg(s, out),
        }
    }
}

/// The SVG text of a whole shape sequence, in drawing order.
pub open spec fn shapes_str(shapes: Seq<Shape>, s: SvgRendererSettings) -> Seq<char>
    decreases shapes.len(),
{
    if shapes.len() == 0 {
        Seq::empty()
    } else {
        shapes_str(shapes.drop_last(), s) + shapes.last().svg_model(s)
    }
}

/// The opening `<svg>` tag with its size attributes.
pub open spec fn svg_header_str(s: SvgRendererSettings) -> Seq<char> {
    "<svg xmlns=\"http://www.w3.org/2000/svg\" width=\""@ + dec_str(s.width as int)
        + "\" height=\""@ + dec_str(s.height as int) + "\">"@
}

/// The optional background rectangle.
pub open spec fn background_str(s: SvgRendererSettings) -> Seq<char> {
    match s.background {
        Some(c) => "<rect fill=\""@ + hex_str(c, false) + "\" width=\""@ + dec_str(
            s.width as int,
        ) + "\" height=\""@ + dec_str(s.height as int) + "\"/>"@,
        None => Seq::<char>::empty(),
    }
}

/// The complete SVG document for a shape sequence: header, optional
/// background, one element per shape in order, and the closing tag.
pub open spec fn svg_doc_str(shapes: Seq<Shape>, s: SvgRendererSettings) -> Seq<char> {
    svg_header_str(s) + background_str(s) + shapes_str(shapes, s) + "</svg>"@
}

/// The SVG backend: accumulates the document text shape by shape.
pub struct SvgRenderer {
    pub settings: SvgRendererSettings,
    pub out: String,
    pub seen_shapes: Ghost<Seq<Shape>>,
}

impl SvgRenderer {
    /// A renderer configured once with the given settings.
    pub fn new(settings: SvgRendererSettings) -> (r: SvgRenderer)
        ensures
            r.wf(),
            r.settings == settings,
            r.seen() == Seq::<Shape>::empty(),
            forall|sh: Seq<Shape>| #[trigger] r.output_model(sh) == svg_doc_str(sh, settings),
    {
        let mut out = String::new();
        out.append("<svg xmlns=\"http://www.w3.org/2000/svg\" width=\"");
        push_dec(&mut out, settings.width as u64);
        out.append("\" height=\"");
        push_dec(&mut out, settings.height as u64);
        out.append("\">");
        match &settings.background {
            Some(c) => {
                out.append("<rect fill=\"");
                c.push_hex(false, &mut out);
                out.append("\" width=\"");
                push_dec(&mut out, settings.width as u64);
                out.append("\" height=\"");
                push_dec(&mut out, settings.height as u64);
                out.append("\"/>");
            },
            None => {},
        }
        let r = SvgRenderer { settings, out, seen_shapes: Ghost(Seq::empty()) };
        proof {
            assert(shapes_str(Seq::<Shape>::empty(), settings) == Seq::<char>::empty());
            assert(r.out@ =~= svg_header_str(settings) + background_str(settings) + shapes_str(
                r.seen_shapes@,
                settings,
            ));
        }
        r
    }
}

impl Renderer for SvgRenderer {
    type Output = String;

    open spec fn wf(&self) -> bool {
        self.out@ == svg_header_str(self.settings) + background_str(self.settings) + shapes_str(
            self.seen_shapes@,
            self.settings,
        )
    }

    open spec fn seen(&self) -> Seq<Shape> {
        self.seen_shapes@
    }

    open spec fn output_model(&self, shapes: Seq<Shape>) -> Seq<char> {
        svg_doc_str(shapes, self.settings)
    }

    fn render(&mut self, shape: &Shape) {
        let s: SvgRendererSettings = self.settings;
        shape.write_svg(&s, &mut self.out);
        self.seen_shapes = Ghost(self.seen_shapes@.push(*shape));
        proof {
            assert(self.seen_shapes@.drop_last() =~= old(self).seen_shapes@);
            assert(self.seen_shapes@.last() == *shape);
            assert(self.out@ =~= svg_header_str(self.settings) + background_str(self.settings)
                + shapes_str(self.seen_shapes@, self.settings));
        }
    }

    fn finalize(self) -> (out: String) {
        let mut out = self.out;
        out.append("</svg>");
        proof {
            assert(out@ =~= svg_doc_str(self.seen_shapes@, self.settings));
        }
        out
    }
}

impl crate::canvas::VectorCanvas {
    /// The canvas as a complete SVG document under the given settings.
    pub fn render_svg(&self, settings: SvgRendererSettings) -> (out: String)
        ensures
            out@ == svg_doc_str(self@, settings),
    {
        self.render(SvgRenderer::new(settings))
    }
}

/// Rendering is deterministic: two SVG renderers with the same settings
/// produce the same text for the same shapes.
pub proof fn lemma_svg_deterministic(
    a: SvgRenderer,
    b: SvgRenderer,
    shapes: Seq<Shape>,
)
    requires
        a.settings == b.settings,
    ensures
        a.output_model(shapes) == b.output_model(shapes),
{
}

} // verus!
