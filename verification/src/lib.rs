//! The discrete core of a Monte-Carlo ray tracer, and its image encoder.
//!
//! Rendering is numeric work on real-valued vectors, which the host program
//! carries out. What the host leaves to this library is everything that is a
//! matter of order and of bytes: which root of an intersection counts, which
//! of several surfaces is hit first, when a light path ends, and how the
//! finished pixels are written down as a plain-text PPM image.

pub mod camera;
pub mod decimal;
pub mod definitions;
pub mod hittable;
pub mod interval;
pub mod material;
pub mod ppm;
pub mod ray;
pub mod write_color;
