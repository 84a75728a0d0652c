//! Conversions between the canvas representations, and the static-asset
//! store.

use generative_art::assets::StaticSite;
use generative_art::canvas::VectorCanvas;
use generative_art::color::Color;
use generative_art::geom::V2;
use generative_art::omni::{OmniCanvas, VectorizerStyle};
use generative_art::raster::RasterCanvas;
use generative_art::shape::{Circle, Shape};

#[test]
fn raster_expands_to_one_square_per_pixel() {
    let mut raster = RasterCanvas::new(2, 2);
    let c = Color::from_rgba8(10, 20, 30, 255);
    raster.set_pixel(1, 0, c);
    let omni = OmniCanvas::Raster { inner: raster };
    let vector = omni.into_vector_canvas(VectorizerStyle::Pixels);
    assert_eq!(vector.shapes.len(), 4);
    // Columns outermost: the pixel (1, 0) sits at slot 1 * height + 0.
    match &vector.shapes[2] {
        Shape::Polygon(p) => {
            assert_eq!(p.fill, Some(c));
            assert_eq!(p.points.len(), 4);
            assert_eq!(p.points[0], V2::new(65536, 0));
            assert_eq!(p.points[2], V2::new(131072, 65536));
        },
        _ => panic!("expected a polygon"),
    }
}

#[test]
fn vector_passes_through_vectorizing() {
    let mut canvas = VectorCanvas::new();
    canvas.draw(Shape::Circle(Circle {
        center: V2::new(0, 0),
        radius: 65536,
        fill: Some(Color::black()),
        stroke: None,
    }));
    let omni = OmniCanvas::Vector { inner: canvas };
    let vector = omni.into_vector_canvas(VectorizerStyle::Pixels);
    assert_eq!(vector.shapes.len(), 1);
}

#[test]
fn raster_passes_through_rasterizing() {
    let mut raster = RasterCanvas::new(3, 3);
    raster.set_pixel(0, 0, Color::white());
    let bytes = raster.as_rgba8();
    let omni = OmniCanvas::Raster { inner: raster };
    let rc = omni.into_raster_canvas(64, 64, None).unwrap();
    assert_eq!(rc.as_rgba8(), bytes);
}

#[test]
fn vector_rasterizes_to_the_requested_size() {
    // Rasterizing runs the real SVG parser and rasterizer.
    let mut canvas = VectorCanvas::new();
    canvas.draw(Shape::Circle(Circle {
        center: V2::new(0, 0),
        radius: 32768,
        fill: Some(Color::black()),
        stroke: None,
    }));
    let omni = OmniCanvas::Vector { inner: canvas };
    let rc = omni.into_raster_canvas(32, 32, Some(Color::white())).unwrap();
    assert_eq!(rc.get_width(), 32);
    assert_eq!(rc.get_height(), 32);
    let bytes = rc.as_rgba8();
    assert_eq!(bytes.len(), 32 * 32 * 4);
    // The white background fills the corner; the black disc covers the
    // center.
    assert_eq!(bytes[0], 255);
    let center = (16 * 32 + 16) * 4;
    assert_eq!(bytes[center], 0);
}

#[test]
fn borrowing_conversions_match_the_consuming_ones() {
    let mut raster = RasterCanvas::new(2, 2);
    raster.set_pixel(1, 1, Color::white());
    let omni = OmniCanvas::Raster { inner: raster };
    // Borrowing vectorization leaves the canvas reusable.
    let v1 = omni.as_vector_canvas(VectorizerStyle::Pixels);
    let v2 = omni.as_vector_canvas(VectorizerStyle::Pixels);
    assert_eq!(v1.shapes.len(), 4);
    assert_eq!(v2.shapes.len(), 4);
    let rc = omni.as_raster_canvas(8, 8, None).unwrap();
    assert_eq!(rc.get_pixel(1, 1), Color::white());
    match omni {
        OmniCanvas::Raster { inner } => {
            let copy = inner.duplicate();
            assert_eq!(copy.as_rgba8(), inner.as_rgba8());
        },
        OmniCanvas::Vector { .. } => panic!("expected a raster canvas"),
    }
}

#[test]
fn static_assets_come_back_unchanged() {
    let font: Vec<u8> = vec![1, 2, 3];
    let favicon: Vec<u8> = vec![4, 5];
    let site = StaticSite::new(String::from("<!doctype html>"), font, favicon);
    assert_eq!(site.get_index(), "<!doctype html>");
    assert_eq!(site.get_font().as_slice(), &[1, 2, 3]);
    assert_eq!(site.get_favicon().as_slice(), &[4, 5]);
}
