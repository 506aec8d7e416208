//! The error taxonomy of the rendering session. Every failure during
//! initialization is mapped to one of these variants and propagated; nothing
//! is retried.

use vstd::prelude::*;

verus! {

/// One error for each step of session initialization that can fail, plus the
/// capability gate of the vertex shader loader.
#[derive(Clone, Copy, Debug, PartialEq, Eq, Structural)]
pub enum RenderError {
    ContextCreationFailed,
    NoDeviceFound,
    WindowCreationFailed,
    NoSuitableQueue,
    DeviceCreationFailed,
    SurfaceCapabilitiesUnavailable,
    SwapchainCreationFailed,
    BufferCreationFailed,
    ShaderLoadFailed,
    CapabilityNotSupported,
    ImageViewCreationFailed,
    RenderPassCreationFailed,
    PipelineCreationFailed,
    CommandBufferCreationFailed,
}

impl RenderError {
    /// A fixed diagnostic text for the variant, for callers that print errors.
    pub fn message(&self) -> (r: &'static str)
        ensures
            (*self is ContextCreationFailed) ==> r@ == "Failed to create instance"@,
            (*self is NoDeviceFound) ==> r@ == "No devices found."@,
            (*self is WindowCreationFailed) ==> r@ == "Failed to create window"@,
            (*self is NoSuitableQueue) ==> r@ == "Failed to find graphics command queue"@,
            (*self is DeviceCreationFailed) ==> r@ == "Failed to create device"@,
            (*self is SurfaceCapabilitiesUnavailable) ==> r@ == "Failed to get surface capabilities"@,
            (*self is SwapchainCreationFailed) ==> r@ == "Failed to create swapchain"@,
            (*self is BufferCreationFailed) ==> r@ == "Failed to create buffer"@,
            (*self is ShaderLoadFailed) ==> r@ == "Failed to load shader"@,
            (*self is CapabilityNotSupported) ==> r@ == "capability not supported"@,
            (*self is ImageViewCreationFailed) ==> r@ == "Failed to create image view"@,
            (*self is RenderPassCreationFailed) ==> r@ == "Failed to create renderpass"@,
            (*self is PipelineCreationFailed) ==> r@ == "Failed to create graphics pipeline"@,
            (*self is CommandBufferCreationFailed) ==> r@ == "Failed to create command buffers"@,
    {
        match self {
            RenderError::ContextCreationFailed => "Failed to create instance",
            RenderError::NoDeviceFound => "No devices found.",
            RenderError::WindowCreationFailed => "Failed to create window",
            RenderError::NoSuitableQueue => "Failed to find graphics command queue",
            RenderError::DeviceCreationFailed => "Failed to create device",
            RenderError::SurfaceCapabilitiesUnavailable => "Failed to get surface capabilities",
            RenderError::SwapchainCreationFailed => "Failed to create swapchain",
            RenderError::BufferCreationFailed => "Failed to create buffer",
            RenderError::ShaderLoadFailed => "Failed to load shader",
            RenderError::CapabilityNotSupported => "capability not supported",
            RenderError::ImageViewCreationFailed => "Failed to create image view",
            RenderError::RenderPassCreationFailed => "Failed to create renderpass",
            RenderError::PipelineCreationFailed => "Failed to create graphics pipeline",
            RenderError::CommandBufferCreationFailed => "Failed to create command buffers",
        }
    }
}

} // verus!
