//! A generative-art toolkit with a verified core.
//!
//! The library models scenes as an ordered sequence of drawable shapes
//! (polylines, polygons, regular polygons, circles) over fixed-point
//! coordinates, renders them to SVG text or to a raster pixel grid, and
//! provides the procedural sketchers (an N-body "celestial" simulator, the
//! Preslav polygon-splatting sampler, a half-tone dot screen and a wave-line
//! sampler) that produce those scenes.
//!
//! All coordinates, colors and angles are fixed-point values (see [`fixed`]):
//! 65536 raw units stand for 1.0, and a full turn of angle is 65536 raw
//! units. Arithmetic saturates instead of overflowing, so every operation is
//! total and deterministic.

pub mod fixed;
pub mod text;
pub mod color;
pub mod geom;
pub mod shape;
pub mod canvas;
pub mod renderer;
pub mod svg;
pub mod raster;
pub mod error;
pub mod rng;
pub mod celestial;
pub mod preslav;
pub mod halftone;
pub mod wave;
pub mod omni;
pub mod sketcher;
pub mod live;
pub mod assets;
pub mod fragment;
