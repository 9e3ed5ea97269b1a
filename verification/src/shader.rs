//! Shader programs, apart from the GPU.

pub mod shaderprogram;
