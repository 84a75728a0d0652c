//! The Preslav sketcher: configuration checking, the decay law, and
//! seeded reproducibility.

use generative_art::error::ConfigError;
use generative_art::preslav::{PreslavSketcher, PreslavSketcherSettings};
use generative_art::raster::RasterCanvas;
use generative_art::renderer::Renderer;
use generative_art::shape::Shape;
use generative_art::svg::{SvgRenderer, SvgRendererSettings};

fn gray_image(width: usize, height: usize) -> RasterCanvas {
    let mut data: Vec<u8> = Vec::new();
    let mut i: usize = 0;
    while i < width * height {
        data.push(128);
        data.push(128);
        data.push(128);
        data.push(255);
        i += 1;
    }
    RasterCanvas::from_rgba8(width, height, &data)
}

fn base_settings() -> PreslavSketcherSettings {
    PreslavSketcherSettings {
        stroke_jitter: 6554,
        stroke_inversion_threshold: 3277,
        alpha: 17957,
        alpha_increase: 950,
        min_edge_count: 3,
        max_edge_count: 4,
        stroke_size: 16384,
        stroke_reduction: 655,
        randomize_rotation: 65536,
        shapes: 50,
    }
}

#[test]
fn too_few_edges_is_rejected() {
    let mut s = base_settings();
    s.min_edge_count = 2;
    match PreslavSketcher::new(gray_image(4, 4), s, 1) {
        Err(e) => assert_eq!(e, ConfigError::EdgeCountBelowMinimum),
        Ok(_) => panic!("expected a configuration error"),
    }
}

#[test]
fn reversed_edge_range_is_rejected() {
    let mut s = base_settings();
    s.min_edge_count = 5;
    s.max_edge_count = 4;
    match PreslavSketcher::new(gray_image(4, 4), s, 1) {
        Err(e) => assert_eq!(e, ConfigError::EdgeCountOrderInvalid),
        Ok(_) => panic!("expected a configuration error"),
    }
}

#[test]
fn error_messages_describe_the_error() {
    assert_eq!(
        ConfigError::EdgeCountBelowMinimum.message(),
        "shapes need at least three edges"
    );
    assert_eq!(
        ConfigError::RenderCountExceedsObjectCount.message(),
        "render count is greater than the object count"
    );
}

#[test]
fn fifty_shapes_over_gray_image() {
    // 50 iterations over a uniform 100 by 100 gray image: 50 polygons,
    // every edge count within the configured bounds, and the stroke size
    // non-increasing across iterations.
    let mut sk = PreslavSketcher::new(gray_image(100, 100), base_settings(), 7).unwrap();
    let mut last_size = sk.settings.stroke_size;
    let mut k = 0;
    while k < 50 {
        sk.draw_shape();
        assert!(sk.settings.stroke_size <= last_size);
        last_size = sk.settings.stroke_size;
        k += 1;
    }
    assert_eq!(sk.canvas.shapes.len(), 50);
    for sh in &sk.canvas.shapes {
        match sh {
            Shape::RegularPolygon(rp) => {
                assert!(3 <= rp.sides && rp.sides <= 4);
                assert_eq!(rp.radius >= 0, true);
            },
            _ => panic!("expected a regular polygon"),
        }
    }
}

#[test]
fn fixed_seed_reproduces_byte_identical_output() {
    // Two independent runs over the same seed and image give the same
    // scene and byte-identical SVG text.
    let mut a = PreslavSketcher::new(gray_image(64, 64), base_settings(), 1234).unwrap();
    let mut b = PreslavSketcher::new(gray_image(64, 64), base_settings(), 1234).unwrap();
    a.run();
    b.run();
    let settings = SvgRendererSettings {
        width: 256,
        height: 256,
        background: None,
        precise: true,
        square: false,
    };
    let sa: String = a.canvas.render(SvgRenderer::new(settings));
    let sb: String = b.canvas.render(SvgRenderer::new(settings));
    assert_eq!(sa, sb);
}

#[test]
fn suggested_defaults_are_runnable() {
    let s = PreslavSketcherSettings::new_preslav(100);
    assert_eq!(s.min_edge_count, 3);
    assert_eq!(s.max_edge_count, 4);
    assert_eq!(s.shapes, 100);
    assert_eq!(s.stroke_size, 32768);
    // 468 / 100 rounds down on the fixed-point grid.
    assert_eq!(s.stroke_reduction, 4);
    let mut sk = PreslavSketcher::new(gray_image(16, 16), s, 3).unwrap();
    sk.run();
    assert_eq!(sk.canvas.shapes.len(), 100);
}

#[test]
fn take_input_returns_the_source() {
    let img = gray_image(8, 8);
    let raw = img.as_rgba8();
    let sk = PreslavSketcher::new(img, base_settings(), 1).unwrap();
    assert_eq!(sk.take_input().as_rgba8(), raw);
}
