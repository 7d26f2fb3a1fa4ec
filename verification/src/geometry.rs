//! The first-generation geometry types kept alongside the richer tree
//! under [`crate::pbrt`]: an integer 2D vector, an encapsulated 3D
//! vector, and a sphere built over it.

pub mod sphere;
pub mod vector;
