//! Bridges an immediate-mode GUI library's per-frame draw output to a
//! retained-mode GPU backend: a texture registry that maps opaque integer
//! identifiers to GPU texture handles, a geometry builder that performs a
//! checked conversion of raw vertex bytes into a fixed vertex layout, and a
//! draw dispatcher that turns a per-frame draw-data snapshot into an ordered
//! plan of clipped, blended GPU draw calls.
//!
//! Coordinates are fixed-point integers: logical positions and sizes carry
//! [`draw_data::SUBPIXEL`] units per logical pixel, and scale factors carry
//! [`draw_data::SUBPIXEL`] units per unit of scale, so every transform in the
//! dispatcher is exact integer arithmetic.

pub mod dispatch;
pub mod draw_data;
pub mod error;
pub mod geometry;
pub mod registry;
pub mod texture;
