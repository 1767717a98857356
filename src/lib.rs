//! Rendering core of a stereoscopic renderer: pipeline and render-pass
//! descriptions, per-frame command recording and submission plans, typed
//! GPU buffers with a host mirror, resource teardown, and the skeletal
//! skinning pass that feeds skin buffers.
//!
//! Device calls themselves are made by the host program from the plans that
//! this library computes; handles are carried here as raw `u64` values.
use vstd::prelude::*;

pub mod error;
pub mod spirv;
pub mod program;
pub mod resources;
pub mod pipeline;
pub mod renderer;
pub mod skinning;

pub use error::{HothamError, HothamResult};
pub use program::ProgramInitialization;
pub use spirv::read_spv_from_bytes;

verus! {

/// Number of views rendered by one render pass instance (stereo).
pub const VIEW_COUNT: u32 = 2;

/// Number of images in the swapchain the renderer is normally built against.
pub const SWAPCHAIN_LENGTH: usize = 3;

} // verus!
