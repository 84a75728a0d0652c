//! The fragment sketchers: post-processing kernels over canvases.

use std::cell::Cell;

use generative_art::canvas::VectorCanvas;
use generative_art::color::Color;
use generative_art::fragment::{RasterFragmentSketcher, VectorFragmentSketcher};
use generative_art::geom::V2;
use generative_art::raster::RasterCanvas;
use generative_art::shape::{Circle, Shape};

#[test]
fn raster_kernel_rewrites_every_pixel() {
    let mut canvas = RasterCanvas::new(2, 2);
    canvas.set_pixel(0, 0, Color::white());
    let mut sk = RasterFragmentSketcher::new(canvas, |_x, _y, i, buf: &Vec<Color>| {
        // Invert the stored red channel of the pixel under the cursor.
        Color::new(65536 - buf[i].r, 0, 0, 65536)
    });
    sk.run();
    assert_eq!(sk.canvas.get_pixel(0, 0).r, 0);
    assert_eq!(sk.canvas.get_pixel(1, 1).r, 65536);
    assert_eq!(sk.canvas.get_width(), 2);
    assert_eq!(sk.canvas.get_height(), 2);
}

#[test]
fn raster_kernel_sees_earlier_writes() {
    // The kernel reads the live buffer: the second visited pixel observes
    // what the first one wrote.
    let mut canvas = RasterCanvas::new(2, 1);
    canvas.set_pixel(0, 0, Color::new(100, 0, 0, 65536));
    let mut sk = RasterFragmentSketcher::new(canvas, |_x, _y, _i, buf: &Vec<Color>| {
        Color::new(buf[0].r + 1, 0, 0, 65536)
    });
    sk.run();
    // Visiting order: (0,0) reads 100 and writes 101; (1,0) reads 101.
    assert_eq!(sk.canvas.get_pixel(0, 0).r, 101);
    assert_eq!(sk.canvas.get_pixel(1, 0).r, 102);
}

#[test]
fn fragment_progress_reports_each_pixel() {
    let canvas = RasterCanvas::new(3, 2);
    let calls: Cell<usize> = Cell::new(0);
    let mut sk = RasterFragmentSketcher::new(canvas, |_x, _y, _i, _b: &Vec<Color>| {
        Color::black()
    });
    sk.run_with_progress(&|done: usize, total: usize| {
        assert!(done < total);
        assert_eq!(total, 6);
        calls.set(calls.get() + 1);
    });
    assert_eq!(calls.get(), 6);
}

#[test]
fn vector_kernel_rewrites_every_shape() {
    let mut canvas = VectorCanvas::new();
    canvas.draw(Shape::Circle(Circle {
        center: V2::new(0, 0),
        radius: 65536,
        fill: None,
        stroke: None,
    }));
    canvas.draw(Shape::Circle(Circle {
        center: V2::new(65536, 0),
        radius: 65536,
        fill: None,
        stroke: None,
    }));
    let mut sk = VectorFragmentSketcher::new(canvas, |sh: Shape| match sh {
        Shape::Circle(c) => Shape::Circle(Circle { radius: c.radius / 2, ..c }),
        other => other,
    });
    sk.run();
    assert_eq!(sk.canvas.shapes.len(), 2);
    match &sk.canvas.shapes[0] {
        Shape::Circle(c) => assert_eq!(c.radius, 32768),
        _ => panic!("expected a circle"),
    }
}
