//! Core logic of a small triangle-rendering session: device and queue
//! selection, swapchain planning, vertex data, shader assets, and the
//! bookkeeping of in-flight submissions.

pub mod error;
pub mod plan;
pub mod render;
pub mod run_loop;
pub mod shaders;
pub mod vertex;
pub mod vk;
