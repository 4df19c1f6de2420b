//! Frame-resource lifecycle and synchronization core of a Vulkan renderer.
//!
//! The crate keeps the bookkeeping of a frame-pipelined renderer: which GPU
//! objects exist and in which order they may be destroyed, which descriptor
//! sets and bindless slots are taken, which frame slot is current, and what
//! has to happen when the presentation surface becomes invalid. It never
//! talks to the GPU itself: native objects enter as raw 64-bit handles, and
//! every function answers with the commands that its caller has to carry out.

pub mod bindless;
pub mod config;
pub mod descriptor_allocator;
pub mod descriptor_layout;
pub mod descriptor_manager;
pub mod descriptor_set;
pub mod draw;
pub mod error;
pub mod frame;
pub mod laws;
pub mod mesh;
mod native;
pub mod rebuild;
pub mod registry;
pub mod renderer;
pub mod renderer_view;
pub mod resources;
pub mod surface;
pub mod texture;
pub mod texture_sets;
pub mod worker;
