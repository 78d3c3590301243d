//! The integer core of a Monte Carlo ray tracer for scenes of spheres.
//!
//! The tracer itself computes in doubles. What it decides on plain values is
//! here, each function with its contract:
//!
//! - `pixel`: the packed 32-bit pixel and its channels;
//! - `ppm`: the text of the image file, header and pixel lines;
//! - `frame`: the preview's framebuffer, filled row by row from the top;
//! - `status`: the messages of the render thread and the run mode;
//! - `handoff`: the channels shared by the render thread and the preview;
//! - `render`: the two ends of the row hand-off;
//! - `depth`: distances along a ray as ordered integers;
//! - `nearest`: which root and which candidate is the hit;
//! - `path`: how a light path goes on within its bounce budget.
pub mod pixel;
pub mod ppm;
pub mod frame;
pub mod status;
pub mod handoff;
pub mod render;
pub mod depth;
pub mod nearest;
pub mod path;
