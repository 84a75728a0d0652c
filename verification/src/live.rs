//! The live-surface backend, as a command-emitting state machine: the
//! decisions of an incremental renderer — the camera-to-device transform
//! and the skipping of redundant style changes — on plain values, with
//! the drawing itself left to whatever surface executes the commands.
//!
//! A host (a windowing front end, a browser binding) holds the surface,
//! feeds each shape through [`LiveRenderer::render`], and executes the
//! returned commands in order; there is nothing to finalize, since the
//! output materializes as the commands run.

use crate::color::Color;
use crate::fixed::{fx_mul, Fx};
use crate::geom::{regular_polygon_points, regular_polygon_spec, V2};
use crate::shape::{LineEnd, Shape, Stroke};
use crate::svg::{device_point, device_scale, SvgRendererSettings};
use vstd::prelude::*;

verus! {

/// One drawing command against a 2-D surface, in device coordinates.
#[derive(Clone, Copy, PartialEq, Eq, Structural, Debug)]
pub enum DrawCmd {
    BeginPath,
    MoveTo(V2),
    LineTo(V2),
    ClosePath,
    /// A full circle around a device center with a device radius.
    Arc(V2, Fx),
    SetFillStyle(Color),
    SetStrokeStyle(Color),
    SetLineWidth(Fx),
    SetLineCap(LineEnd),
    Fill,
    Stroke,
    /// Paints the whole `width` by `height` surface with a color.
    FillRect(Color, u32, u32),
}

/// The tracked state of a live surface: its size and the current styles,
/// kept so redundant style changes can be skipped.
#[derive(Clone, Copy, PartialEq, Eq, Structural, Debug)]
pub struct LiveRenderer {
    pub width: u32,
    pub height: u32,
    pub fill_color: Color,
    pub stroke_color: Color,
    pub line_width: Fx,
    pub line_cap: LineEnd,
}

/// The device mapping the live surface uses: the same as the other
/// backends, height-preserving.
pub open spec fn live_settings(st: LiveRenderer) -> SvgRendererSettings {
    SvgRendererSettings {
        width: st.width,
        height: st.height,
        background: None,
        precise: true,
        square: false,
    }
}

/// The commands that fill and stroke the current path: each style setter
/// appears exactly when the value differs from the tracked one, and the
/// line width is scaled to device units.
pub open spec fn paint_cmds(
    st: LiveRenderer,
    fill: Option<Color>,
    stroke: Option<Stroke>,
) -> Seq<DrawCmd> {
    (match fill {
        Some(c) => (if c != st.fill_color {
            seq![DrawCmd::SetFillStyle(c)]
        } else {
            Seq::<DrawCmd>::empty()
        }) + seq![DrawCmd::Fill],
        None => Seq::<DrawCmd>::empty(),
    }) + (match stroke {
        Some(k) => (if k.color != st.stroke_color {
            seq![DrawCmd::SetStrokeStyle(k.color)]
        } else {
            Seq::<DrawCmd>::empty()
        }) + (if k.width != st.line_width {
            seq![DrawCmd::SetLineWidth(fx_mul(k.width, device_scale(st.width)))]
        } else {
            Seq::<DrawCmd>::empty()
        }) + (if k.line_end != st.line_cap {
            seq![DrawCmd::SetLineCap(k.line_end)]
        } else {
            Seq::<DrawCmd>::empty()
        }) + seq![DrawCmd::Stroke],
        None => Seq::<DrawCmd>::empty(),
    })
}

/// The `LineTo` commands through every point after the first.
pub open spec fn lineto_cmds(pts: Seq<V2>, st: LiveRenderer) -> Seq<DrawCmd> {
    Seq::new((pts.len() - 1) as nat, |i: int| DrawCmd::LineTo(
        device_point(pts[i + 1], live_settings(st)),
    ))
}

/// The path and paint commands of one point-list shape: nothing for an
/// empty point list; else begin, move to the first device point, a line
/// per further point, a close exactly for closed outlines, then paint.
pub open spec fn path_cmds(
    st: LiveRenderer,
    pts: Seq<V2>,
    closed: bool,
    fill: Option<Color>,
    stroke: Option<Stroke>,
) -> Seq<DrawCmd> {
    if pts.len() == 0 {
        Seq::<DrawCmd>::empty()
    } else {
        seq![DrawCmd::BeginPath, DrawCmd::MoveTo(device_point(pts[0], live_settings(st)))]
            + lineto_cmds(pts, st) + (if closed {
            seq![DrawCmd::ClosePath]
        } else {
            Seq::<DrawCmd>::empty()
        }) + paint_cmds(st, fill, stroke)
    }
}

/// The commands one shape emits against the tracked state.
pub open spec fn live_cmds(st: LiveRenderer, sh: Shape) -> Seq<DrawCmd> {
    match sh {
        Shape::Line(l) => path_cmds(st, l.points@, false, None, Some(l.stroke)),
        Shape::Polygon(p) => path_cmds(st, p.points@, true, p.fill, p.stroke),
        Shape::RegularPolygon(rp) => path_cmds(
            st,
            regular_polygon_spec(rp.center, rp.radius, rp.rotation, rp.sides as int),
            true,
            rp.fill,
            rp.stroke,
        ),
        Shape::Circle(c) => seq![
            DrawCmd::BeginPath,
            DrawCmd::Arc(
                device_point(c.center, live_settings(st)),
                fx_mul(c.radius, device_scale(st.width)),
            ),
        ] + paint_cmds(st, c.fill, c.stroke),
    }
}

/// The tracked state after one shape: the styles the shape painted with,
/// unchanged for an empty point list.
pub open spec fn live_state_after(st: LiveRenderer, sh: Shape) -> LiveRenderer {
    let (empty, fill, stroke) = match sh {
        Shape::Line(l) => (l.points@.len() == 0, None, Some(l.stroke)),
        Shape::Polygon(p) => (p.points@.len() == 0, p.fill, p.stroke),
        Shape::RegularPolygon(rp) => (
            regular_polygon_spec(rp.center, rp.radius, rp.rotation, rp.sides as int).len()
                == 0,
            rp.fill,
            rp.stroke,
        ),
        Shape::Circle(c) => (false, c.fill, c.stroke),
    };
    if empty {
        st
    } else {
        LiveRenderer {
            fill_color: match fill {
                Some(c) => c,
                None => st.fill_color,
            },
            stroke_color: match stroke {
                Some(k) => k.color,
                None => st.stroke_color,
            },
            line_width: match stroke {
                Some(k) => k.width,
                None => st.line_width,
            },
            line_cap: match stroke {
                Some(k) => k.line_end,
                None => st.line_cap,
            },
            ..st
        }
    }
}

/// The setup commands of a fresh surface: the optional background wash,
/// then the initial styles the state starts from.
pub open spec fn init_cmds(width: u32, height: u32, background: Option<Color>) -> Seq<
    DrawCmd,
> {
    (match background {
        Some(c) => seq![DrawCmd::SetFillStyle(c), DrawCmd::FillRect(c, width, height)],
        None => Seq::<DrawCmd>::empty(),
    }) + seq![
        DrawCmd::SetFillStyle(Color::white()),
        DrawCmd::SetStrokeStyle(Color::white()),
        DrawCmd::SetLineWidth(65536),
        DrawCmd::SetLineCap(LineEnd::Butt),
    ]
}

impl LiveRenderer {
    /// A fresh surface state and its setup commands: exactly one
    /// `FillRect` when a background is asked for, then white fill and
    /// stroke, unit line width, and butt caps.
    pub fn new(width: u32, height: u32, background: Option<Color>) -> (r: (
        LiveRenderer,
        Vec<DrawCmd>,
    ))
        ensures
            r.0 == (LiveRenderer {
                width,
                height,
                fill_color: Color::white(),
                stroke_color: Color::white(),
                line_width: 65536,
                line_cap: LineEnd::Butt,
            }),
            r.1@ == init_cmds(width, height, background),
    {
        let mut cmds: Vec<DrawCmd> = Vec::new();
        match background {
            Some(c) => {
                cmds.push(DrawCmd::SetFillStyle(c));
                cmds.push(DrawCmd::FillRect(c, width, height));
            },
            None => {},
        }
        cmds.push(DrawCmd::SetFillStyle(Color::white()));
        cmds.push(DrawCmd::SetStrokeStyle(Color::white()));
        cmds.push(DrawCmd::SetLineWidth(65536));
        cmds.push(DrawCmd::SetLineCap(LineEnd::Butt));
        proof {
            assert(cmds@ =~= init_cmds(width, height, background));
        }
        let state = LiveRenderer {
            width,
            height,
            fill_color: Color::white(),
            stroke_color: Color::white(),
            line_width: 65536,
            line_cap: LineEnd::Butt,
        };
        (state, cmds)
    }

    /// Consumes one shape: returns exactly the commands of
    /// [`live_cmds`] against the state before the call, and tracks the
    /// styles the shape painted with.
    pub fn render(&mut self, shape: &Shape) -> (cmds: Vec<DrawCmd>)
        ensures
            cmds@ == live_cmds(*old(self), *shape),
            *final(self) == live_state_after(*old(self), *shape),
    {
        match shape {
            Shape::Line(l) => self.path_shape(&l.points, false, &None, &Some(l.stroke)),
            Shape::Polygon(p) => self.path_shape(&p.points, true, &p.fill, &p.stroke),
            Shape::RegularPolygon(rp) => {
                let pts: Vec<V2> = regular_polygon_points(
                    rp.center,
                    rp.radius,
                    rp.rotation,
                    rp.sides,
                );
                self.path_shape(&pts, true, &rp.fill, &rp.stroke)
            },
            Shape::Circle(c) => {
                let settings = SvgRendererSettings {
                    width: self.width,
                    height: self.height,
                    background: None,
                    precise: true,
                    square: false,
                };
                let mut cmds: Vec<DrawCmd> = Vec::new();
                cmds.push(DrawCmd::BeginPath);
                cmds.push(
                    DrawCmd::Arc(
                        device_point(c.center, settings),
                        fx_mul(c.radius, device_scale(self.width)),
                    ),
                );
                self.paint(&mut cmds, &c.fill, &c.stroke);
                proof {
                    assert(cmds@ =~= live_cmds(*old(self), *shape));
                }
                cmds
            },
        }
    }

    /// Emits the path and paint commands of one point-list shape.
    fn path_shape(
        &mut self,
        pts: &Vec<V2>,
        closed: bool,
        fill: &Option<Color>,
        stroke: &Option<Stroke>,
    ) -> (cmds: Vec<DrawCmd>)
        ensures
            cmds@ == path_cmds(*old(self), pts@, closed, *fill, *stroke),
            final(self).width == old(self).width,
            final(self).height == old(self).height,
            pts@.len() == 0 ==> *final(self) == *old(self),
            pts@.len() > 0 ==> final(self).fill_color == (match *fill {
                Some(c) => c,
                None => old(self).fill_color,
            }) && final(self).stroke_color == (match *stroke {
                Some(k) => k.color,
                None => old(self).stroke_color,
            }) && final(self).line_width == (match *stroke {
                Some(k) => k.width,
                None => old(self).line_width,
            }) && final(self).line_cap == (match *stroke {
                Some(k) => k.line_end,
                None => old(self).line_cap,
            }),
    {
        let mut cmds: Vec<DrawCmd> = Vec::new();
        if pts.len() == 0 {
            return cmds;
        }
        let settings = SvgRendererSettings {
            width: self.width,
            height: self.height,
            background: None,
            precise: true,
            square: false,
        };
        cmds.push(DrawCmd::BeginPath);
        cmds.push(DrawCmd::MoveTo(device_point(pts[0], settings)));
        let mut i: usize = 1;
        while i < pts.len()
            invariant
                1 <= i <= pts@.len(),
                settings == live_settings(*old(self)),
                self == old(self),
                cmds@ == seq![
                    DrawCmd::BeginPath,
                    DrawCmd::MoveTo(device_point(pts@[0], live_settings(*old(self)))),
                ] + lineto_cmds(pts@, *old(self)).take(i as int - 1),
            decreases pts@.len() - i,
        {
            cmds.push(DrawCmd::LineTo(device_point(pts[i], settings)));
            proof {
                assert(lineto_cmds(pts@, *old(self)).take(i as int) =~= lineto_cmds(
                    pts@,
                    *old(self),
                ).take(i as int - 1).push(
                    DrawCmd::LineTo(device_point(pts@[i as int], live_settings(*old(self)))),
                ));
                assert(cmds@ =~= seq![
                    DrawCmd::BeginPath,
                    DrawCmd::MoveTo(device_point(pts@[0], live_settings(*old(self)))),
                ] + lineto_cmds(pts@, *old(self)).take(i as int));
            }
            i = i + 1;
        }
        proof {
            assert(lineto_cmds(pts@, *old(self)).take(pts@.len() - 1) =~= lineto_cmds(
                pts@,
                *old(self),
            ));
        }
        if closed {
            cmds.push(DrawCmd::ClosePath);
        }
        self.paint(&mut cmds, fill, stroke);
        proof {
            assert(cmds@ =~= path_cmds(*old(self), pts@, closed, *fill, *stroke));
        }
        cmds
    }

    /// Emits the fill and stroke of the current path, skipping style
    /// setters whose value the surface already has, and tracks the new
    /// styles.
    fn paint(&mut self, cmds: &mut Vec<DrawCmd>, fill: &Option<Color>, stroke: &Option<Stroke>)
        ensures
            final(cmds)@ == old(cmds)@ + paint_cmds(*old(self), *fill, *stroke),
            final(self).width == old(self).width,
            final(self).height == old(self).height,
            final(self).fill_color == (match *fill {
                Some(c) => c,
                None => old(self).fill_color,
            }),
            final(self).stroke_color == (match *stroke {
                Some(k) => k.color,
                None => old(self).stroke_color,
            }),
            final(self).line_width == (match *stroke {
                Some(k) => k.width,
                None => old(self).line_width,
            }),
            final(self).line_cap == (match *stroke {
                Some(k) => k.line_end,
                None => old(self).line_cap,
            }),
    {
        let ghost start = cmds@;
        match fill {
            Some(c) => {
                if !(*c == self.fill_color) {
                    cmds.push(DrawCmd::SetFillStyle(*c));
                    self.fill_color = *c;
                }
                cmds.push(DrawCmd::Fill);
            },
            None => {},
        }
        match stroke {
            Some(k) => {
                if !(k.color == self.stroke_color) {
                    cmds.push(DrawCmd::SetStrokeStyle(k.color));
                    self.stroke_color = k.color;
                }
                if !(k.width == self.line_width) {
                    cmds.push(DrawCmd::SetLineWidth(fx_mul(k.width, device_scale(self.width))));
                    self.line_width = k.width;
                }
                if !(k.line_end == self.line_cap) {
                    cmds.push(DrawCmd::SetLineCap(k.line_end));
                    self.line_cap = k.line_end;
                }
                cmds.push(DrawCmd::Stroke);
            },
            None => {},
        }
        proof {
            assert(cmds@ =~= start + paint_cmds(*old(self), *fill, *stroke));
        }
    }
}

} // verus!
