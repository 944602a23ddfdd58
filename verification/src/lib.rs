//! A Mandelbrot set renderer built on fixed-point arithmetic.
//!
//! The crate maps screen pixels to points of the complex plane, runs the
//! escape-time iteration with known-region shortcuts and cycle detection,
//! folds per-pixel outcomes into a histogram, turns iteration counts into
//! colors, and caches each stage so that a frame only recomputes what its
//! inputs changed.

pub mod color;
pub mod color_picker;
pub mod draw;
pub mod input;
pub mod fixed;
pub mod iterate;
pub mod known_region;
pub mod log2fix;
pub mod mandelbrot;
pub mod reduce;
pub mod render;
pub mod text;
pub mod viewbox;

pub use fixed::FixVec;
