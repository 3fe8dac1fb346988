//! Batching core of a 2D sprite renderer.
//!
//! The crate turns draw requests (a texture, a source rectangle, a destination
//! rectangle and a draw-order index) into batches of textured quads, one batch
//! per draw-order index, in ascending order of that index. Everything here is
//! plain data: talking to the graphics device is left to the caller, who is
//! handed the batches, the draw calls and the settings the device objects are
//! to be created with.

pub mod geometry;
mod outside;
pub mod pipeline;
pub mod render;
pub mod sprite;
pub mod texture;
pub mod vertex;
