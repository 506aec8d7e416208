//! The boundary to the graphics library. Each wrapper here makes exactly one
//! call into it and converts between its types and the plain values the
//! verified logic works on. A failed call becomes `None`; which error a
//! failure means is decided by the verified callers.

use vstd::prelude::*;

use crate::plan::{AdapterDesc, Extent2D, SurfaceExtensions};
use crate::shaders::DeviceFeatures;

verus! {

#[verifier::external_type_specification]
#[verifier::external_body]
pub struct ExVulkanLibrary(vulkano::VulkanLibrary);

#[verifier::external_type_specification]
#[verifier::external_body]
pub struct ExInstance(vulkano::instance::Instance);

#[verifier::external_type_specification]
#[verifier::external_body]
pub struct ExPhysicalDevice(vulkano::device::physical::PhysicalDevice);

#[verifier::external_type_specification]
#[verifier::external_body]
pub struct ExDevice(vulkano::device::Device);

#[verifier::external_type_specification]
#[verifier::external_body]
pub struct ExQueue(vulkano::device::Queue);

#[verifier::external_type_specification]
#[verifier::external_body]
pub struct ExSurface(vulkano::swapchain::Surface);

#[verifier::external_type_specification]
#[verifier::external_body]
pub struct ExSwapchain(vulkano::swapchain::Swapchain);

#[verifier::external_type_specification]
#[verifier::external_body]
pub struct ExPresentMode(vulkano::swapchain::PresentMode);

#[verifier::external_type_specification]
#[verifier::external_body]
pub struct ExImage(vulkano::image::Image);

#[verifier::external_type_specification]
#[verifier::external_body]
pub struct ExImageView(vulkano::image::view::ImageView);

#[verifier::external_type_specification]
#[verifier::external_body]
pub struct ExImageUsage(vulkano::image::ImageUsage);

#[verifier::external_type_specification]
#[verifier::external_body]
pub struct ExRenderPass(vulkano::render_pass::RenderPass);

#[verifier::external_type_specification]
#[verifier::external_body]
pub struct ExFramebuffer(vulkano::render_pass::Framebuffer);

/// What the surface reports of itself, as far as swapchain planning reads it:
/// the current extent (`None` where the report says it is undefined) and the
/// supported usage flags, carried through opaquely.
pub struct SurfaceCapsData {
    pub current_extent: Option<Extent2D>,
    pub supported_usage: vulkano::image::ImageUsage,
}

/// Everything the swapchain is created with. The extent, image count, format,
/// transform and compositing are plain values with exact contracts; the
/// present mode and usage flags are carried through from the surface's report
/// opaquely.
pub struct SwapchainPlan {
    pub min_image_count: u32,
    pub format: crate::plan::ImageFormat,
    pub extent: Extent2D,
    pub usage: vulkano::image::ImageUsage,
    pub transform: crate::plan::SurfaceTransformKind,
    pub composite_alpha: crate::plan::CompositeAlphaKind,
    pub present_mode: vulkano::swapchain::PresentMode,
}

/// Relies on vulkano::VulkanLibrary::new: loads the host's graphics library;
/// `None` when loading fails.
#[verifier::external_body]
pub(crate) fn vk_load_library() -> Option<std::sync::Arc<vulkano::VulkanLibrary>> {
    match vulkano::VulkanLibrary::new() {
        Ok(lib) => Some(lib),
        Err(_) => None,
    }
}

/// Relies on vulkano::instance::Instance::new: creates a context with
/// exactly the surface extensions named by `ext`; `None` when creation fails.
#[verifier::external_body]
pub(crate) fn vk_create_instance(
    library: &std::sync::Arc<vulkano::VulkanLibrary>,
    ext: &SurfaceExtensions,
) -> Option<std::sync::Arc<vulkano::instance::Instance>> {
    let enabled_extensions = vulkano::instance::InstanceExtensions {
        khr_surface: ext.surface,
        khr_xlib_surface: ext.xlib,
        khr_xcb_surface: ext.xcb,
        khr_wayland_surface: ext.wayland,
        khr_win32_surface: ext.win32,
        ..vulkano::instance::InstanceExtensions::empty()
    };
    let create_info =
        vulkano::instance::InstanceCreateInfo { enabled_extensions, ..Default::default() };
    vulkano::instance::Instance::new(library.clone(), create_info).ok()
}

/// Relies on vulkano::instance::Instance::enumerate_physical_devices: hands
/// the enumerated adapters out as a vector; `None` when enumeration fails.
#[verifier::external_body]
pub(crate) fn vk_enumerate_physical(
    instance: &std::sync::Arc<vulkano::instance::Instance>,
) -> Option<Vec<std::sync::Arc<vulkano::device::physical::PhysicalDevice>>> {
    match instance.enumerate_physical_devices() {
        Ok(iter) => Some(iter.collect()),
        Err(_) => None,
    }
}

/// Relies on vulkano::device::physical::PhysicalDevice::properties: reads the
/// adapter's name and type, for logging.
#[verifier::external_body]
pub(crate) fn vk_adapter_desc(
    physical: &std::sync::Arc<vulkano::device::physical::PhysicalDevice>,
) -> AdapterDesc {
    let props = physical.properties();
    AdapterDesc {
        name: props.device_name.clone(),
        device_type: format!("{:?}", props.device_type),
    }
}

/// Relies on vulkano::device::physical::PhysicalDevice::queue_family_properties:
/// for each queue family, whether its flags include graphics support.
#[verifier::external_body]
pub(crate) fn vk_queue_family_graphics(
    physical: &std::sync::Arc<vulkano::device::physical::PhysicalDevice>,
) -> Vec<bool> {
    physical
        .queue_family_properties()
        .iter()
        .map(|p| p.queue_flags.intersects(vulkano::device::QueueFlags::GRAPHICS))
        .collect()
}

/// Relies on vulkano::device::physical::PhysicalDevice::surface_support:
/// whether family `family_index` can present to the surface; `None` when the
/// report itself fails.
#[verifier::external_body]
pub(crate) fn vk_surface_support(
    physical: &std::sync::Arc<vulkano::device::physical::PhysicalDevice>,
    family_index: usize,
    surface: &std::sync::Arc<vulkano::swapchain::Surface>,
) -> Option<bool> {
    match physical.surface_support(family_index as u32, surface) {
        Ok(s) => Some(s),
        Err(_) => None,
    }
}

/// Relies on vulkano::device::physical::PhysicalDevice::surface_capabilities:
/// the surface's current extent and supported usage flags; `None` when the
/// report fails or the surface does not belong to the adapter's instance
/// (the call would panic on that mismatch, so it is tested first).
#[verifier::external_body]
pub(crate) fn vk_surface_capabilities(
    physical: &std::sync::Arc<vulkano::device::physical::PhysicalDevice>,
    surface: &std::sync::Arc<vulkano::swapchain::Surface>,
) -> Option<SurfaceCapsData> {
    if physical.instance() != surface.instance() {
        return None;
    }
    let caps = match physical
        .surface_capabilities(surface, vulkano::swapchain::SurfaceInfo::default())
    {
        Ok(caps) => caps,
        Err(_) => return None,
    };
    Some(SurfaceCapsData {
        current_extent: caps.current_extent.map(|e| Extent2D { width: e[0], height: e[1] }),
        supported_usage: caps.supported_usage_flags,
    })
}

/// Relies on vulkano::device::physical::PhysicalDevice::surface_present_modes:
/// the present modes the surface offers, in the order reported; `None` when
/// the report fails or the surface does not belong to the adapter's instance
/// (the call would panic on that mismatch, so it is tested first).
#[verifier::external_body]
pub(crate) fn vk_surface_present_modes(
    physical: &std::sync::Arc<vulkano::device::physical::PhysicalDevice>,
    surface: &std::sync::Arc<vulkano::swapchain::Surface>,
) -> Option<Vec<vulkano::swapchain::PresentMode>> {
    if physical.instance() != surface.instance() {
        return None;
    }
    match physical.surface_present_modes(surface, vulkano::swapchain::SurfaceInfo::default()) {
        Ok(iter) => Some(iter.collect()),
        Err(_) => None,
    }
}

/// Relies on vulkano::device::Device::new: creates the logical device on the
/// given queue family, with the swapchain extension exactly when the request
/// names it, and with all features the adapter supports enabled. Returns the
/// device and its first queue; `None` when creation fails.
#[verifier::external_body]
pub(crate) fn vk_create_device(
    physical: &std::sync::Arc<vulkano::device::physical::PhysicalDevice>,
    family_index: u32,
    enable_swapchain_ext: bool,
) -> Option<(std::sync::Arc<vulkano::device::Device>, std::sync::Arc<vulkano::device::Queue>)> {
    let queue = vulkano::device::QueueCreateInfo { queue_family_index: family_index, ..Default::default() };
    let extensions = vulkano::device::DeviceExtensions { khr_swapchain: enable_swapchain_ext, ..vulkano::device::DeviceExtensions::empty() };
    let create_info = vulkano::device::DeviceCreateInfo { queue_create_infos: vec![queue], enabled_extensions: extensions, enabled_features: *physical.supported_features(), ..Default::default() };
    match vulkano::device::Device::new(physical.clone(), create_info) {
        Ok((device, mut queues)) => queues.next().map(|q| (device, q)),
        Err(_) => None,
    }
}

/// Relies on vulkano::device::Device::enabled_features: reads the two
/// capability flags the vertex asset loader checks.
#[verifier::external_body]
pub(crate) fn vk_device_features(
    device: &std::sync::Arc<vulkano::device::Device>,
) -> DeviceFeatures {
    let f = device.enabled_features();
    DeviceFeatures {
        shader_clip_distance: f.shader_clip_distance,
        shader_cull_distance: f.shader_cull_distance,
    }
}

/// Relies on vulkano::swapchain::Swapchain::new: creates the swapchain from
/// the plan's values and returns it with its images; `None` when creation
/// fails or the surface does not belong to the device's instance (the call
/// would panic on that mismatch, so it is tested first).
#[verifier::external_body]
pub(crate) fn vk_create_swapchain(
    device: &std::sync::Arc<vulkano::device::Device>,
    surface: &std::sync::Arc<vulkano::swapchain::Surface>,
    plan: &SwapchainPlan,
) -> Option<(std::sync::Arc<vulkano::swapchain::Swapchain>, Vec<std::sync::Arc<vulkano::image::Image>>)> {
    if device.instance() != surface.instance() {
        return None;
    }
    let format = match plan.format { crate::plan::ImageFormat::R8G8B8A8Srgb => vulkano::format::Format::R8G8B8A8_SRGB };
    let pre_transform = match plan.transform { crate::plan::SurfaceTransformKind::Identity => vulkano::swapchain::SurfaceTransform::Identity };
    let composite_alpha = match plan.composite_alpha { crate::plan::CompositeAlphaKind::Opaque => vulkano::swapchain::CompositeAlpha::Opaque };
    let create_info = vulkano::swapchain::SwapchainCreateInfo { min_image_count: plan.min_image_count, image_format: format, image_extent: [plan.extent.width, plan.extent.height], image_usage: plan.usage, pre_transform, composite_alpha, present_mode: plan.present_mode, ..Default::default() };
    vulkano::swapchain::Swapchain::new(device.clone(), surface.clone(), create_info).ok()
}

/// Relies on vulkano::image::view::ImageView::new_default: wraps a swapchain
/// image in a view; `None` when creation fails.
#[verifier::external_body]
pub(crate) fn vk_image_view(
    image: &std::sync::Arc<vulkano::image::Image>,
) -> Option<std::sync::Arc<vulkano::image::view::ImageView>> {
    vulkano::image::view::ImageView::new_default(image.clone()).ok()
}

/// Relies on vulkano::render_pass::Framebuffer::new: binds one image view to
/// the render pass as the single attachment; `None` when creation fails or
/// the view does not belong to the render pass's device (the call would
/// panic on that mismatch, so it is tested first).
#[verifier::external_body]
pub(crate) fn vk_framebuffer(
    render_pass: &std::sync::Arc<vulkano::render_pass::RenderPass>,
    view: &std::sync::Arc<vulkano::image::view::ImageView>,
) -> Option<std::sync::Arc<vulkano::render_pass::Framebuffer>> {
    if vulkano::device::DeviceOwned::device(render_pass.as_ref()) != vulkano::device::DeviceOwned::device(view.as_ref()) {
        return None;
    }
    let create_info = vulkano::render_pass::FramebufferCreateInfo {
        attachments: vec![view.clone()],
        ..Default::default()
    };
    vulkano::render_pass::Framebuffer::new(render_pass.clone(), create_info).ok()
}

} // verus!
