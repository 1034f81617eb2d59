//! Wind-affected material pipeline.
//!
//! Foliage-like geometry is animated by bending vertices in the shader
//! according to a parametric wind model.  This crate holds the verified core
//! of that pipeline: the wind parameters and their GPU-facing uniform
//! encoding, the tileable noise texture that supplies spatial variation, and
//! the engine that promotes renderable objects to wind-affected derived
//! materials and broadcasts parameter changes to every derived material each
//! frame.  The host renderer owns the frame loop and the GPU; it hands this
//! crate plain values and receives plain values back.

pub mod engine;
pub mod material;
pub mod texture;
pub mod wind;
