//! The live-surface command stream: setup, paths, and the skipping of
//! redundant style changes.

use generative_art::color::Color;
use generative_art::geom::V2;
use generative_art::live::{DrawCmd, LiveRenderer};
use generative_art::shape::{Circle, Line, LineEnd, Polygon, Shape, Stroke};

fn line(points: Vec<V2>, color: Color) -> Shape {
    Shape::Line(Line {
        points,
        stroke: Stroke { color, width: 65536, line_end: LineEnd::Round },
    })
}

#[test]
fn setup_paints_the_background_once() {
    let (state, cmds) = LiveRenderer::new(4, 4, Some(Color::black()));
    assert_eq!(
        cmds,
        vec![
            DrawCmd::SetFillStyle(Color::black()),
            DrawCmd::FillRect(Color::black(), 4, 4),
            DrawCmd::SetFillStyle(Color::white()),
            DrawCmd::SetStrokeStyle(Color::white()),
            DrawCmd::SetLineWidth(65536),
            DrawCmd::SetLineCap(LineEnd::Butt),
        ]
    );
    assert_eq!(state.fill_color, Color::white());
    let (_, bare) = LiveRenderer::new(4, 4, None);
    assert_eq!(bare.len(), 4);
}

#[test]
fn polyline_commands_are_exact() {
    let (mut state, _) = LiveRenderer::new(2, 2, None);
    let mut points: Vec<V2> = Vec::new();
    points.push(V2::new(-65536, 0));
    points.push(V2::new(65536, 0));
    let cmds = state.render(&line(points, Color::black()));
    assert_eq!(
        cmds,
        vec![
            DrawCmd::BeginPath,
            DrawCmd::MoveTo(V2::new(0, 65536)),
            DrawCmd::LineTo(V2::new(131072, 65536)),
            DrawCmd::SetStrokeStyle(Color::black()),
            DrawCmd::SetLineCap(LineEnd::Round),
            DrawCmd::Stroke,
        ]
    );
    assert_eq!(state.stroke_color, Color::black());
}

#[test]
fn redundant_style_changes_are_skipped() {
    let (mut state, _) = LiveRenderer::new(2, 2, None);
    let mut a: Vec<V2> = Vec::new();
    a.push(V2::new(0, 0));
    a.push(V2::new(65536, 0));
    let mut b: Vec<V2> = Vec::new();
    b.push(V2::new(0, 65536));
    b.push(V2::new(0, 0));
    let first = state.render(&line(a, Color::black()));
    let second = state.render(&line(b, Color::black()));
    // The second stroke reuses the color, width and cap set by the first.
    assert_eq!(first.len(), 6);
    assert_eq!(second.len(), 4);
    assert_eq!(second[3], DrawCmd::Stroke);
}

#[test]
fn polygons_close_and_fill() {
    let (mut state, _) = LiveRenderer::new(2, 2, None);
    let mut points: Vec<V2> = Vec::new();
    points.push(V2::new(0, 0));
    points.push(V2::new(65536, 0));
    points.push(V2::new(0, 65536));
    let cmds = state.render(&Shape::Polygon(Polygon {
        points,
        fill: Some(Color::white()),
        stroke: None,
    }));
    // White is already the tracked fill, so no setter is emitted.
    assert_eq!(cmds.len(), 6);
    assert_eq!(cmds[4], DrawCmd::ClosePath);
    assert_eq!(cmds[5], DrawCmd::Fill);
}

#[test]
fn circles_emit_an_arc() {
    let (mut state, _) = LiveRenderer::new(2, 2, None);
    let cmds = state.render(&Shape::Circle(Circle {
        center: V2::new(0, 0),
        radius: 32768,
        fill: None,
        stroke: None,
    }));
    assert_eq!(
        cmds,
        vec![DrawCmd::BeginPath, DrawCmd::Arc(V2::new(65536, 65536), 32768)]
    );
}

#[test]
fn empty_point_lists_emit_nothing() {
    let (mut state, _) = LiveRenderer::new(2, 2, None);
    let before = state;
    let cmds = state.render(&line(Vec::new(), Color::black()));
    assert_eq!(cmds.len(), 0);
    assert_eq!(state, before);
}
