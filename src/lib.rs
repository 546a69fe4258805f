//! Verified core of a small CPU ray tracer for an animated solar system.
//!
//! The floating-point shading lives with the program that drives the library;
//! what is kept here is the integer and decision logic that the renderer rests
//! on: seed hashing for cell noise, pixel packing, nearest-hit resolution,
//! shadow occlusion by surface index, and the row-major frame layout.
pub mod color;
pub mod noise;
pub mod raster;
pub mod scene;
pub mod sphere;
