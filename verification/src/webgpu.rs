//! GPU ops: samplers and swap chains.

pub mod sampler;
pub mod swapchain;
