//! The rendering core: colors, procedural geometry, surface configuration,
//! pipeline layout, and the per-frame command recorder.

pub mod color;
pub mod context;
pub mod geometry;
pub mod pipeline;
pub mod renderer;
