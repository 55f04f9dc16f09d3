//! Renderer-side data: colors, mesh geometry and the mesh table.

pub mod color;
pub mod mesh;
pub mod pipeline;
