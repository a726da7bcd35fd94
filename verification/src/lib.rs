//! Preparation logic for a volumetric-fog upsampling and compositing pass.
//!
//! A low-resolution fog buffer is upsampled and composited onto a camera's
//! frame with additive blending. This crate covers the per-frame
//! preparation for that draw: deciding which camera views are eligible,
//! computing a per-view uniform, assembling the GPU bind group that wires
//! the fog texture, a shared sampler and the uniform together, and
//! obtaining a memoized specialized pipeline variant for the compositing
//! draw. GPU resources are modeled as records carrying a fresh identity,
//! handed out by an explicit device allocator; the surrounding engine's
//! entity store is modeled as explicit per-frame lists of view records.

pub mod frame;
pub mod pipeline;
pub mod render_resource;
pub mod view;
