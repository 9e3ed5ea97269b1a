//! Small helpers shared by the models and the renderer.

pub mod vec_utils;
