//! The celestial N-body simulator: configuration checking, momentum
//! balance at initialization, the coincident-body rule, and the shape of
//! the rendered scene.

use generative_art::celestial::{CelestialSketcher, CelestialSketcherSettings};
use generative_art::error::ConfigError;
use generative_art::fixed::{fx_add, fx_mul};
use generative_art::geom::V2;
use generative_art::color::Color;
use generative_art::rng::rng_from_seed;
use generative_art::canvas::VectorCanvas;
use generative_art::shape::Shape;

fn base_settings() -> CelestialSketcherSettings {
    CelestialSketcherSettings {
        object_count: 3,
        render_count: 3,
        object_position_min: -65536,
        object_position_max: 65536,
        object_size_min: 655360,
        object_size_max: 655360,
        object_velocity_min: 0,
        object_velocity_max: 0,
        g: 65536,
        foreground: Color::white(),
        steps: 1000,
        step_length: 655,
        render_polygon: None,
    }
}

#[test]
fn render_count_may_equal_object_count() {
    // Equality is valid, not a configuration error.
    let s = base_settings();
    assert!(CelestialSketcher::new(s, 1).is_ok());
}

#[test]
fn render_count_above_object_count_is_rejected() {
    let mut s = base_settings();
    s.render_count = 4;
    match CelestialSketcher::new(s, 1) {
        Err(e) => assert_eq!(e, ConfigError::RenderCountExceedsObjectCount),
        Ok(_) => panic!("expected a configuration error"),
    }
}

#[test]
fn zero_objects_is_rejected() {
    let mut s = base_settings();
    s.object_count = 0;
    s.render_count = 0;
    match CelestialSketcher::new(s, 1) {
        Err(e) => assert_eq!(e, ConfigError::NoObjects),
        Ok(_) => panic!("expected a configuration error"),
    }
}

#[test]
fn initial_momentum_is_balanced() {
    // The sum of velocity * mass right after initialization is zero up to
    // the rounding of one division per axis.
    let mut s = base_settings();
    s.object_velocity_min = -65536;
    s.object_velocity_max = 65536;
    let sk = CelestialSketcher::new(s, 99).unwrap();
    let mut px: i64 = 0;
    let mut py: i64 = 0;
    for o in &sk.objects {
        px = fx_add(px, fx_mul(o.velocity.x, o.mass));
        py = fx_add(py, fx_mul(o.velocity.y, o.mass));
    }
    let m = sk.objects.last().unwrap().mass;
    assert!(0 <= px && px <= m / 65536);
    assert!(0 <= py && py <= m / 65536);
}

#[test]
fn coincident_bodies_exert_no_force() {
    // Two bodies in exactly the same place leave each other's velocity
    // alone: the mutual force is defined as zero, not infinite.
    let mut sk = CelestialSketcher {
        objects: Vec::new(),
        render_count: 2,
        g: 65536,
        foreground: Color::white(),
        steps: 1,
        step_length: 655,
        render_polygon: None,
        canvas: VectorCanvas::new(),
        rng: rng_from_seed(0),
    };
    sk.objects.push(generative_art::celestial::CelestialObject {
        position: V2::new(1000, 1000),
        velocity: V2::new(0, 0),
        mass: 655360,
        path: Vec::new(),
    });
    sk.objects.push(generative_art::celestial::CelestialObject {
        position: V2::new(1000, 1000),
        velocity: V2::new(0, 0),
        mass: 655360,
        path: Vec::new(),
    });
    sk.step();
    assert_eq!(sk.objects[0].velocity, V2::new(0, 0));
    assert_eq!(sk.objects[1].velocity, V2::new(0, 0));
    assert_eq!(sk.objects[0].position, V2::new(1000, 1000));
}

#[test]
fn three_body_run_renders_three_paths() {
    // A 3-body simulation over 1000 steps, all objects the same mass,
    // started at rest except the balancing object, rendered as paths:
    // exactly 3 polylines, each through 1000 samples.
    let mut sk = CelestialSketcher::new(base_settings(), 5).unwrap();
    sk.run();
    assert_eq!(sk.canvas.shapes.len(), 3);
    for sh in &sk.canvas.shapes {
        match sh {
            Shape::Line(l) => assert_eq!(l.points.len(), 1000),
            _ => panic!("expected a polyline"),
        }
    }
}

#[test]
fn three_body_run_renders_dots_per_sample() {
    // In dots mode the same scene holds one polygon per object and step.
    let mut s = base_settings();
    s.steps = 40;
    s.render_polygon = Some(4);
    let mut sk = CelestialSketcher::new(s, 5).unwrap();
    sk.run();
    assert_eq!(sk.canvas.shapes.len(), 3 * 40);
    for sh in &sk.canvas.shapes {
        match sh {
            Shape::RegularPolygon(rp) => assert_eq!(rp.sides, 4),
            _ => panic!("expected a regular polygon"),
        }
    }
}

#[test]
fn dots_mode_respects_render_count() {
    // Rendering fewer objects than are simulated scopes the dots too.
    let mut s = base_settings();
    s.steps = 10;
    s.render_count = 2;
    s.render_polygon = Some(3);
    let mut sk = CelestialSketcher::new(s, 8).unwrap();
    sk.run();
    assert_eq!(sk.canvas.shapes.len(), 2 * 10);
}

#[test]
fn paths_grow_one_point_per_step() {
    let mut sk = CelestialSketcher::new(base_settings(), 2).unwrap();
    sk.step();
    sk.step();
    for o in &sk.objects {
        assert_eq!(o.path.len(), 2);
    }
}
