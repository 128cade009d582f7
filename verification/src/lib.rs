//! Verified resource manager for a native 3D graphics pipeline.
//!
//! The library owns the decision logic of three resource kinds: shader
//! programs (a compile-and-link pipeline with a well-defined failure mode
//! at each step), vertex and index buffers with typed attribute layouts,
//! and 2D textures with unit bookkeeping. The graphics API itself is an
//! external collaborator: the library decides what to do, states it in
//! contracts, and hands the unverified glue exact values to pass on.

pub mod err;
mod glconst;
pub mod raw;
pub mod shader;
pub mod texture;
pub mod vertex;
