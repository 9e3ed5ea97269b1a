//! The scene and what drives it: the renderer's state and the frames it
//! plans, and the window's events as commands to the renderer.

pub mod renderer;
pub mod app_window;
