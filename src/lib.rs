//! Verified model of a small 2D sprite renderer: the key table, sprite
//! transforms and their uniform-buffer contents, the surface size, the fixed
//! render-pipeline layout, the per-frame render pass and the frame loop.
//!
//! Coordinates are fixed-point integers (see [`sprite::SUBUNITS`]); the host
//! turns them into the GPU's floating-point values.

pub mod game;
pub mod input;
pub mod player;
pub mod renderer;
pub mod sprite;
pub mod surface;
pub mod texture;
