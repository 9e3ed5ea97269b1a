//! Scene logic for a small OpenGL demo: procedural meshes and the
//! state that keyboard input drives, kept apart from the window and the GPU.
//!
//! Numbers that end up as floating point on the GPU are handled here either
//! as opaque components of a generic type, which the library only moves
//! around, or as exact decimal fixed point.

pub mod utils;
pub mod models;
pub mod shader;
pub mod texture;
pub mod scene;
