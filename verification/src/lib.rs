//! Verified core of a small 3D game: input routing, application state
//! decisions, mesh geometry, matrix layout and color decoding.

pub mod app;
pub mod input;
pub mod math;
pub mod renderer;
pub mod scene;
pub mod state;
