//! A viewport-driven tile engine core: a world grid of flyweight tiles, a
//! camera clamped to world bounds, a culling algorithm that computes the
//! visible sub-grid, and a type-tagged asset cache that hands out shared
//! image handles.
//!
//! The host (window creation, input wiring, draw calls) lives outside this
//! crate and talks to it through plain values: pixel coordinates, tile
//! matrices and asset handles.

pub mod assets;
pub mod camera;
pub mod entity;
pub mod library;
pub mod world;
