//! The sketcher abstraction: progress callbacks and the generic run.

use std::cell::Cell;

use generative_art::celestial::{CelestialSketcher, CelestialSketcherSettings};
use generative_art::color::Color;
use generative_art::omni::{OmniCanvas, VectorizerStyle};
use generative_art::sketcher::Sketcher;

fn settings(steps: usize) -> CelestialSketcherSettings {
    CelestialSketcherSettings {
        object_count: 2,
        render_count: 2,
        object_position_min: -65536,
        object_position_max: 65536,
        object_size_min: 655360,
        object_size_max: 655360,
        object_velocity_min: 0,
        object_velocity_max: 0,
        g: 65536,
        foreground: Color::white(),
        steps,
        step_length: 655,
        render_polygon: None,
    }
}

#[test]
fn progress_reports_once_per_step() {
    let mut sk = CelestialSketcher::new(settings(25), 3).unwrap();
    let calls: Cell<usize> = Cell::new(0);
    let last_total: Cell<usize> = Cell::new(0);
    let out = Sketcher::run(&mut sk, &|done: usize, total: usize| {
        assert!(done < total);
        calls.set(calls.get() + 1);
        last_total.set(total);
    });
    assert_eq!(calls.get(), 25);
    assert_eq!(last_total.get(), 25);
    match out {
        OmniCanvas::Vector { inner } => assert_eq!(inner.shapes.len(), 2),
        OmniCanvas::Raster { .. } => panic!("expected a vector canvas"),
    }
}

#[test]
fn run_and_dispose_consumes_the_sketcher() {
    let sk = CelestialSketcher::new(settings(4), 3).unwrap();
    let out = Sketcher::run_and_dispose(sk, &|_done: usize, _total: usize| {});
    let vector = out.into_vector_canvas(VectorizerStyle::Pixels);
    assert_eq!(vector.shapes.len(), 2);
}
