//! Procedural terrain synthesis core.
//!
//! The crate turns a set of numeric generation parameters into a composed
//! noise expression describing a world-wide elevation field, and re-samples
//! a quantized elevation field into chunked, seam-consistent triangle
//! meshes with per-triangle coloring, together with parallel collision
//! meshes.
//!
//! All quantities are fixed-point integers: configuration values carry six
//! decimal places (micro units) and mesh coordinates carry twelve (pico
//! units), so that the product of an elevation sample and the vertical
//! scale is exact.  Floating-point evaluation of the noise expression, and
//! conversion of the mesh buffers to floating-point vertex arrays, belong
//! to the surrounding application.

pub mod config;
pub mod field;
pub mod geometry;
pub mod graph;
pub mod mesh;
pub mod planet;
