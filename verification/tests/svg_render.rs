//! The SVG backend: exact output text and determinism.

use generative_art::canvas::VectorCanvas;
use generative_art::color::Color;
use generative_art::geom::V2;
use generative_art::renderer::Renderer;
use generative_art::shape::{Circle, Line, LineEnd, Shape, Stroke};
use generative_art::svg::{SvgRenderer, SvgRendererSettings};

fn small_scene() -> VectorCanvas {
    let mut canvas = VectorCanvas::new();
    canvas.draw(Shape::Circle(Circle {
        center: V2::new(0, 0),
        radius: 65536,
        fill: Some(Color::black()),
        stroke: None,
    }));
    canvas
}

#[test]
fn svg_of_a_circle_is_exact() {
    let canvas = small_scene();
    let settings = SvgRendererSettings { width: 2, height: 2, background: None, precise: false, square: false };
    let out: String = canvas.render(SvgRenderer::new(settings));
    assert_eq!(
        out,
        "<svg xmlns=\"http://www.w3.org/2000/svg\" width=\"2\" height=\"2\">\
         <circle cx=\"1\" cy=\"1\" r=\"1\" fill=\"#000000\" /></svg>"
    );
}

#[test]
fn svg_background_rectangle() {
    let canvas = VectorCanvas::new();
    let settings = SvgRendererSettings {
        width: 3,
        height: 2,
        background: Some(Color::white()),
        precise: false,
        square: false,
    };
    let out: String = canvas.render(SvgRenderer::new(settings));
    assert_eq!(
        out,
        "<svg xmlns=\"http://www.w3.org/2000/svg\" width=\"3\" height=\"2\">\
         <rect fill=\"#FFFFFF\" width=\"3\" height=\"2\"/></svg>"
    );
}

#[test]
fn svg_polyline_with_stroke() {
    let mut canvas = VectorCanvas::new();
    let mut points: Vec<V2> = Vec::new();
    points.push(V2::new(-65536, 0));
    points.push(V2::new(65536, 0));
    canvas.draw(Shape::Line(Line {
        points,
        stroke: Stroke { color: Color::black(), width: 65536, line_end: LineEnd::Round },
    }));
    let settings = SvgRendererSettings { width: 2, height: 2, background: None, precise: false, square: false };
    let out: String = canvas.render(SvgRenderer::new(settings));
    assert_eq!(
        out,
        "<svg xmlns=\"http://www.w3.org/2000/svg\" width=\"2\" height=\"2\">\
         <polyline points=\"0,1 2,1 \" fill=\"none\" stroke=\"#000000\" \
         stroke-width=\"1\" stroke-linecap=\"round\" /></svg>"
    );
}

#[test]
fn svg_rendering_is_deterministic() {
    // Rendering the same canvas twice with the same settings gives
    // byte-identical text.
    let canvas = small_scene();
    let settings = SvgRendererSettings {
        width: 640,
        height: 480,
        background: Some(Color::white()),
        precise: true,
        square: false,
    };
    let a: String = canvas.render(SvgRenderer::new(settings));
    let b: String = canvas.render(SvgRenderer::new(settings));
    assert_eq!(a, b);
}

#[test]
fn precise_mode_keeps_fractions() {
    let mut canvas = VectorCanvas::new();
    canvas.draw(Shape::Circle(Circle {
        center: V2::new(32768, 0),
        radius: 16384,
        fill: None,
        stroke: None,
    }));
    let settings = SvgRendererSettings { width: 2, height: 2, background: None, precise: true, square: false };
    let out: String = canvas.render(SvgRenderer::new(settings));
    assert_eq!(
        out,
        "<svg xmlns=\"http://www.w3.org/2000/svg\" width=\"2\" height=\"2\">\
         <circle cx=\"1.5000\" cy=\"1.0000\" r=\"0.2500\" fill=\"none\" /></svg>"
    );
}

#[test]
fn render_svg_matches_the_generic_driver() {
    let canvas = small_scene();
    let settings = SvgRendererSettings { width: 5, height: 7, background: None, precise: true, square: false };
    let a: String = canvas.render(SvgRenderer::new(settings));
    assert_eq!(canvas.render_svg(settings), a);
}

#[test]
fn square_mode_ignores_the_aspect_ratio() {
    let canvas = small_scene();
    let tall = SvgRendererSettings {
        width: 2,
        height: 4,
        background: None,
        precise: false,
        square: true,
    };
    let out: String = canvas.render(SvgRenderer::new(tall));
    // With the square sizing mode the circle stays centered one scale unit
    // down; height-preserving centering would put it two units down.
    assert_eq!(
        out,
        "<svg xmlns=\"http://www.w3.org/2000/svg\" width=\"2\" height=\"4\">\
         <circle cx=\"1\" cy=\"1\" r=\"1\" fill=\"#000000\" /></svg>"
    );
    let preserving = SvgRendererSettings { square: false, ..tall };
    let out2: String = canvas.render(SvgRenderer::new(preserving));
    assert_eq!(
        out2,
        "<svg xmlns=\"http://www.w3.org/2000/svg\" width=\"2\" height=\"4\">\
         <circle cx=\"1\" cy=\"2\" r=\"1\" fill=\"#000000\" /></svg>"
    );
}

#[test]
fn zoom_scales_positions_not_widths() {
    let mut canvas = VectorCanvas::new();
    canvas.draw(Shape::Circle(Circle {
        center: V2::new(32768, 32768),
        radius: 32768,
        fill: None,
        stroke: None,
    }));
    canvas.zoom_camera(131072);
    match &canvas.shapes[0] {
        Shape::Circle(c) => {
            assert_eq!(c.center, V2::new(65536, 65536));
            assert_eq!(c.radius, 65536);
        },
        _ => panic!("expected a circle"),
    }
}
