//! Instanced shape rendering: the decisions of the renderer, verified.
//!
//! The library holds the per-frame instance queue, the capacity rule of the
//! instance buffer, the upload and draw plan of each frame, the vertex buffer
//! layouts, the fixed pipeline configuration and the unit quad that every
//! instance replicates. Issuing the GPU commands and computing the `f32`
//! model matrices is left to the caller.

pub mod layout;
pub mod geometry;
pub mod renderer;
pub mod pipeline;
