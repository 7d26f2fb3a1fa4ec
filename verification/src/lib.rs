//! Geometric core of a physically-based ray tracer in its earliest stage:
//! typed 2D/3D algebra (vectors, points, normals), axis-aligned bounds,
//! rays, an analytic ray-sphere intersection test, and a minimal pinhole
//! visibility renderer that produces one binary grayscale sample per pixel.
//!
//! The algebra is generic over a [`scalar::Scalar`] capability interface
//! that supplies the arithmetic, ordering, square root and tangent
//! operations the formulas need. The crate ships one fully verified
//! implementation, [`fixed::Fix64`]; an application shell may supply a
//! floating-point implementation of its own.

pub mod fixed;
pub mod geometry;
pub mod pbrt;
pub mod render;
pub mod scalar;

pub use scalar::Scalar;
pub use scalar::ExactScalar;
