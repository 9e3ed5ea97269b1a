//! The drawable models and the mesh data they are built from.

pub mod model;
pub mod sphere;
pub mod cube;
pub mod shuttlebug;
