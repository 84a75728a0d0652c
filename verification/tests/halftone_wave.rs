//! The half-tone and wave sketchers.

use std::cell::Cell;

use generative_art::color::Color;
use generative_art::halftone::{HalftoneSketcher, HalftoneSketcherSettings};
use generative_art::raster::RasterCanvas;
use generative_art::shape::{LineEnd, Shape, Stroke};
use generative_art::wave::{WaveSketcher, WaveSketcherSettings};

fn flat_image(width: usize, height: usize, level: u8) -> RasterCanvas {
    let mut data: Vec<u8> = Vec::new();
    let mut i: usize = 0;
    while i < width * height {
        data.push(level);
        data.push(level);
        data.push(level);
        data.push(255);
        i += 1;
    }
    RasterCanvas::from_rgba8(width, height, &data)
}

fn halftone_settings() -> HalftoneSketcherSettings {
    HalftoneSketcherSettings {
        dot_density: 4 * 65536,
        dot_scale: 65536,
        dot_sides: 4,
        dot_color: Color::black(),
    }
}

#[test]
fn white_image_collapses_every_dot() {
    // Full brightness leaves the radius term (1 - brightness) at zero:
    // every dot has radius zero, tolerated as degenerate geometry.
    let mut sk = HalftoneSketcher::new(flat_image(40, 40, 255), halftone_settings());
    sk.run();
    assert!(sk.canvas.shapes.len() > 0);
    for sh in &sk.canvas.shapes {
        match sh {
            Shape::RegularPolygon(rp) => {
                assert_eq!(rp.radius, 0);
                assert_eq!(rp.sides, 4);
                assert_eq!(rp.fill, Some(Color::black()));
            },
            _ => panic!("expected a regular polygon"),
        }
    }
}

#[test]
fn dark_image_grows_dots() {
    let mut sk = HalftoneSketcher::new(flat_image(40, 40, 0), halftone_settings());
    sk.run();
    let mut any_positive = false;
    for sh in &sk.canvas.shapes {
        match sh {
            Shape::RegularPolygon(rp) => {
                if rp.radius > 0 {
                    any_positive = true;
                }
            },
            _ => panic!("expected a regular polygon"),
        }
    }
    assert!(any_positive);
}

fn wave_settings() -> WaveSketcherSettings {
    WaveSketcherSettings {
        stroke: Stroke { color: Color::black(), width: 655, line_end: LineEnd::Round },
        skip_rows: 0,
        skip_columns: 0,
        frequency_multiplier: 6554,
        amplitude_multiplier: 2 * 65536,
        invert_brightness: false,
        brightness_threshold: 0,
        box_blur_radius: 0,
        stroke_with_frequency: false,
    }
}

#[test]
fn bright_rows_trace_one_line_each() {
    let mut sk = WaveSketcher::new(flat_image(16, 4, 255), wave_settings());
    sk.run();
    assert_eq!(sk.canvas.shapes.len(), 4);
    for sh in &sk.canvas.shapes {
        match sh {
            Shape::Line(l) => {
                assert_eq!(l.points.len(), 16);
                assert_eq!(l.stroke.color, Color::black());
                assert_eq!(l.stroke.line_end, LineEnd::Round);
                assert_eq!(l.stroke.width, 655);
            },
            _ => panic!("expected a polyline"),
        }
    }
}

#[test]
fn threshold_gates_dark_rows() {
    // Everything lies below the threshold: nothing is drawn.
    let mut s = wave_settings();
    s.brightness_threshold = 2 * 65536;
    let mut sk = WaveSketcher::new(flat_image(16, 4, 255), s);
    sk.run();
    assert_eq!(sk.canvas.shapes.len(), 0);
}

#[test]
fn row_skipping_thins_the_trace() {
    let mut s = wave_settings();
    s.skip_rows = 1;
    let mut sk = WaveSketcher::new(flat_image(16, 4, 255), s);
    sk.run();
    assert_eq!(sk.canvas.shapes.len(), 2);
}

#[test]
fn wave_progress_reports_each_row() {
    let mut sk = WaveSketcher::new(flat_image(8, 5, 255), wave_settings());
    let rows: Cell<usize> = Cell::new(0);
    sk.run_with_progress(&|row: usize, total: usize| {
        assert!(row < total);
        assert_eq!(total, 5);
        rows.set(rows.get() + 1);
    });
    assert_eq!(rows.get(), 5);
}

#[test]
fn halftone_progress_reports_each_dot() {
    let mut sk = HalftoneSketcher::new(flat_image(16, 16, 128), halftone_settings());
    let dots: Cell<usize> = Cell::new(0);
    sk.run_with_progress(&|done: usize, total: usize| {
        assert!(done < total);
        dots.set(dots.get() + 1);
    });
    assert_eq!(dots.get(), sk.canvas.shapes.len());
}

#[test]
fn blurred_brightness_still_traces() {
    let mut s = wave_settings();
    s.box_blur_radius = 2;
    let mut sk = WaveSketcher::new(flat_image(16, 4, 200), s);
    sk.run();
    assert!(sk.canvas.shapes.len() > 0);
}
