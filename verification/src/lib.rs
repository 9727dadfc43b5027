//! The integer core of an escape-time Mandelbrot renderer.
//!
//! A render pass samples a rectangle of the complex plane, iterates each
//! sample until it escapes, colours the samples that escaped, and maps them
//! to pixels.  The iteration itself is double-precision arithmetic and is
//! done by the caller.  What this crate owns is everything around it that
//! is decided over integers:
//!
//! - [`grid`]: the order in which a pass visits its samples;
//! - [`escape`]: how long the iteration of one sample runs, which escape
//!   counts are drawn, and in which colour;
//! - [`pool`]: how a pass is cut into worker slices, what one worker
//!   returns, and how the workers' results are put together;
//! - [`view`]: the viewport, its invariant, and the zoom that replaces it;
//! - [`binary64`]: the order of double-precision encodings, by which the
//!   viewport's invariant is stated;
//! - [`point`]: the points that pass between them.

pub mod binary64;
pub mod escape;
pub mod grid;
pub mod point;
pub mod pool;
pub mod view;
