//! The rendering session: one-time setup in strict order — context, adapter,
//! queue family, logical device, shader assets, swapchain, framebuffers —
//! and the bookkeeping of the frame loop.

use vstd::prelude::*;
use std::sync::Arc;

use crate::error::RenderError;
use crate::plan::{
    default_extent, family_qualifies, select_adapter, select_queue_family, swapchain_extent,
    AdapterDesc, CompositeAlphaKind, ImageFormat, QueueFamilyDesc, SurfaceExtensions,
    SurfaceTransformKind, command_buffer_plans_spec, record_command_buffer_plans,
    CommandBufferPlan,
};
use crate::run_loop::{any_closed, prune_spec, LoopEvent, Phase, SubmissionSet};
use crate::shaders::test_frag::{test_frag_payload, TestFrag};
use crate::shaders::test_vert::{test_vert_payload, TestVert};
use crate::shaders::{words_of, SPIRV_MAGIC};
use crate::vertex::{triangle_positions_spec, VertexBuffer};
use crate::vk::{
    vk_adapter_desc, vk_create_device, vk_create_instance, vk_create_swapchain,
    vk_device_features, vk_enumerate_physical, vk_framebuffer, vk_image_view, vk_load_library,
    vk_queue_family_graphics, vk_surface_capabilities, vk_surface_present_modes,
    vk_surface_support, SurfaceCapsData, SwapchainPlan,
};

verus! {

/// How long one image acquisition may wait, in nanoseconds, before the loop
/// fails fatally.
pub const ACQUIRE_TIMEOUT_NS: u64 = 1_000_000;

/// The context and the adapter chosen from it: the instance, every
/// enumerated adapter's description (for logging), and the selected adapter,
/// which is always the first one enumerated.
pub struct Context {
    pub instance: Arc<vulkano::instance::Instance>,
    pub adapters: Vec<AdapterDesc>,
    pub physical: Arc<vulkano::device::physical::PhysicalDevice>,
}

/// Creates the graphics context with the surface extensions asked for plus
/// the surface extension itself, enumerates the adapters, and selects the
/// first one. Fails with `ContextCreationFailed` when the library cannot be
/// loaded, the instance cannot be created or enumeration fails, and with
/// `NoDeviceFound` when no adapter was enumerated.
pub fn create_context(ext: &SurfaceExtensions) -> (r: Result<Context, RenderError>)
    ensures
        r is Ok ==> r.unwrap().adapters@.len() > 0,
        r is Err ==> (r->Err_0 == RenderError::ContextCreationFailed || r->Err_0
            == RenderError::NoDeviceFound),
{
    let library = match vk_load_library() {
        Option::Some(l) => l,
        Option::None => {
            return Err(RenderError::ContextCreationFailed);
        },
    };
    let requested = SurfaceExtensions { surface: true, ..*ext };
    let instance = match vk_create_instance(&library, &requested) {
        Option::Some(i) => i,
        Option::None => {
            return Err(RenderError::ContextCreationFailed);
        },
    };
    let physicals = match vk_enumerate_physical(&instance) {
        Option::Some(p) => p,
        Option::None => {
            return Err(RenderError::ContextCreationFailed);
        },
    };
    let mut adapters: Vec<AdapterDesc> = Vec::new();
    let mut k: usize = 0;
    while k < physicals.len()
        invariant
            k <= physicals@.len(),
            adapters@.len() == k,
        decreases physicals@.len() - k,
    {
        adapters.push(vk_adapter_desc(&physicals[k]));
        k = k + 1;
    }
    let selected = match select_adapter(&adapters) {
        Ok(i) => i,
        Err(e) => {
            return Err(e);
        },
    };
    let mut physicals = physicals;
    let physical = physicals.remove(selected);
    Ok(Context { instance, adapters, physical })
}

/// Reads, for every queue family of the adapter, whether it supports
/// graphics work and whether the surface reported presentation support, and
/// selects the first family that has both. Fails with `NoSuitableQueue`
/// exactly when no read family qualifies; the read families are returned
/// beside the chosen index.
pub fn select_presentation_queue(
    physical: &Arc<vulkano::device::physical::PhysicalDevice>,
    surface: &Arc<vulkano::swapchain::Surface>,
) -> (r: Result<(usize, Vec<QueueFamilyDesc>), RenderError>)
    ensures
        r is Ok ==> {
            &&& r.unwrap().0 < r.unwrap().1@.len()
            &&& family_qualifies(r.unwrap().1@[r.unwrap().0 as int])
            &&& forall|j: int| 0 <= j < r.unwrap().0 ==> !family_qualifies(r.unwrap().1@[j])
        },
        r is Err ==> r->Err_0 == RenderError::NoSuitableQueue,
{
    let graphics = vk_queue_family_graphics(physical);
    let mut families: Vec<QueueFamilyDesc> = Vec::new();
    let mut k: usize = 0;
    while k < graphics.len()
        invariant
            k <= graphics@.len(),
            families@.len() == k,
        decreases graphics@.len() - k,
    {
        let support = vk_surface_support(physical, k, surface);
        families.push(QueueFamilyDesc { supports_graphics: graphics[k], surface_support: support });
        k = k + 1;
    }
    let idx = match select_queue_family(&families) {
        Ok(i) => i,
        Err(e) => {
            return Err(e);
        },
    };
    Ok((idx, families))
}

/// Creates the logical device on the chosen queue family, with the swapchain
/// extension enabled, and returns it with its presentation queue. Fails with
/// `DeviceCreationFailed` when the context refuses, or when the family index
/// does not fit the 32-bit index the context takes.
pub fn create_device(
    physical: &Arc<vulkano::device::physical::PhysicalDevice>,
    family_index: usize,
) -> (r: Result<(Arc<vulkano::device::Device>, Arc<vulkano::device::Queue>), RenderError>)
    ensures
        r is Err ==> r->Err_0 == RenderError::DeviceCreationFailed,
{
    if family_index > u32::MAX as usize {
        return Err(RenderError::DeviceCreationFailed);
    }
    match vk_create_device(physical, family_index as u32, true) {
        Option::Some(p) => Ok(p),
        Option::None => Err(RenderError::DeviceCreationFailed),
    }
}

/// Loads the two shader assets for the device, vertex first. The vertex
/// loader checks the device's two capability flags and fails with
/// `CapabilityNotSupported` when either is missing; nothing else can fail.
pub fn load_shaders(device: &Arc<vulkano::device::Device>) -> (r: Result<
    (TestVert, TestFrag),
    RenderError,
>)
    ensures
        r is Err ==> r->Err_0 == RenderError::CapabilityNotSupported,
        r is Ok ==> {
            &&& r.unwrap().0@ == words_of(test_vert_payload())
            &&& r.unwrap().1@ == words_of(test_frag_payload())
            &&& r.unwrap().0@.len() == 228
            &&& r.unwrap().0@[0] == SPIRV_MAGIC
            &&& r.unwrap().1@.len() == 105
            &&& r.unwrap().1@[0] == SPIRV_MAGIC
        },
{
    let features = vk_device_features(device);
    let vert = match TestVert::load(&features) {
        Ok(v) => v,
        Err(e) => {
            return Err(e);
        },
    };
    let frag = TestFrag::load();
    Ok((vert, frag))
}

/// Plans the swapchain from the surface's report: triple buffering, the fixed
/// color format, the reported current extent or the fixed default where the
/// report is undefined, the full reported usage flags, identity transform,
/// opaque compositing, and the first reported present mode.
pub fn plan_swapchain(
    caps: &SurfaceCapsData,
    modes: &Vec<vulkano::swapchain::PresentMode>,
) -> (p: SwapchainPlan)
    requires
        modes@.len() > 0,
    ensures
        p.min_image_count == 3,
        p.format == ImageFormat::R8G8B8A8Srgb,
        caps.current_extent is Some ==> p.extent == caps.current_extent.unwrap(),
        caps.current_extent is None ==> p.extent == default_extent(),
        p.usage == caps.supported_usage,
        p.transform == SurfaceTransformKind::Identity,
        p.composite_alpha == CompositeAlphaKind::Opaque,
        p.present_mode == modes@[0],
{
    SwapchainPlan {
        min_image_count: 3,
        format: ImageFormat::R8G8B8A8Srgb,
        extent: swapchain_extent(caps.current_extent),
        usage: caps.supported_usage,
        transform: SurfaceTransformKind::Identity,
        composite_alpha: CompositeAlphaKind::Opaque,
        present_mode: modes[0],
    }
}

/// Creates the swapchain for the surface: reads the surface's capabilities
/// and present modes, plans from them, and asks the context for the chain and
/// its images. Fails with `SurfaceCapabilitiesUnavailable` when either report
/// fails or no present mode was reported, and with `SwapchainCreationFailed`
/// when the context refuses the planned chain.
pub fn create_swapchain(
    physical: &Arc<vulkano::device::physical::PhysicalDevice>,
    device: &Arc<vulkano::device::Device>,
    surface: &Arc<vulkano::swapchain::Surface>,
) -> (r: Result<
    (Arc<vulkano::swapchain::Swapchain>, Vec<Arc<vulkano::image::Image>>, SwapchainPlan),
    RenderError,
>)
    ensures
        r is Ok ==> {
            &&& r.unwrap().2.min_image_count == 3
            &&& r.unwrap().2.format == ImageFormat::R8G8B8A8Srgb
            &&& r.unwrap().2.transform == SurfaceTransformKind::Identity
            &&& r.unwrap().2.composite_alpha == CompositeAlphaKind::Opaque
        },
        r is Err ==> (r->Err_0 == RenderError::SurfaceCapabilitiesUnavailable || r->Err_0
            == RenderError::SwapchainCreationFailed),
{
    let caps = match vk_surface_capabilities(physical, surface) {
        Option::Some(c) => c,
        Option::None => {
            return Err(RenderError::SurfaceCapabilitiesUnavailable);
        },
    };
    let modes = match vk_surface_present_modes(physical, surface) {
        Option::Some(m) => m,
        Option::None => {
            return Err(RenderError::SurfaceCapabilitiesUnavailable);
        },
    };
    if modes.len() == 0 {
        return Err(RenderError::SurfaceCapabilitiesUnavailable);
    }
    let plan = plan_swapchain(&caps, &modes);
    match vk_create_swapchain(device, surface, &plan) {
        Option::Some((swapchain, images)) => Ok((swapchain, images, plan)),
        Option::None => Err(RenderError::SwapchainCreationFailed),
    }
}

/// Builds one framebuffer per swapchain image, in image order: each image is
/// wrapped in a view and bound to the render pass as the single attachment.
/// Fails with `ImageViewCreationFailed` when the context refuses a view or a
/// framebuffer; on success there are exactly as many framebuffers as images.
pub fn build_framebuffers(
    render_pass: &Arc<vulkano::render_pass::RenderPass>,
    images: &Vec<Arc<vulkano::image::Image>>,
) -> (r: Result<Vec<Arc<vulkano::render_pass::Framebuffer>>, RenderError>)
    ensures
        r is Ok ==> r.unwrap()@.len() == images@.len(),
        r is Err ==> r->Err_0 == RenderError::ImageViewCreationFailed,
{
    let mut framebuffers: Vec<Arc<vulkano::render_pass::Framebuffer>> = Vec::new();
    let mut k: usize = 0;
    while k < images.len()
        invariant
            k <= images@.len(),
            framebuffers@.len() == k,
        decreases images@.len() - k,
    {
        let view = match vk_image_view(&images[k]) {
            Option::Some(v) => v,
            Option::None => {
                return Err(RenderError::ImageViewCreationFailed);
            },
        };
        let framebuffer = match vk_framebuffer(render_pass, &view) {
            Option::Some(f) => f,
            Option::None => {
                return Err(RenderError::ImageViewCreationFailed);
            },
        };
        framebuffers.push(framebuffer);
        k = k + 1;
    }
    Ok(framebuffers)
}

/// Creates the three-slot vertex buffer and writes the fixed triangle into
/// it; the buffer then holds exactly the three triangle positions.
pub fn create_vertex_buffer() -> (b: VertexBuffer)
    ensures
        b@ == triangle_positions_spec(),
{
    let mut b = VertexBuffer::array(3);
    b.write_triangle();
    b
}

/// Everything device setup yields before the render pass and pipeline are
/// built: the device and its queue, the chosen queue family, the read
/// families, both shader assets, the planned swapchain with its images, and
/// the written vertex buffer.
pub struct DeviceSession {
    pub device: Arc<vulkano::device::Device>,
    pub queue: Arc<vulkano::device::Queue>,
    pub queue_family_index: usize,
    pub families: Vec<QueueFamilyDesc>,
    pub vert: TestVert,
    pub frag: TestFrag,
    pub swapchain: Arc<vulkano::swapchain::Swapchain>,
    pub images: Vec<Arc<vulkano::image::Image>>,
    pub plan: SwapchainPlan,
    pub vertex_buffer: VertexBuffer,
}

/// Performs the device-side setup for an adapter and a surface, in strict
/// order: queue family selection, device creation, swapchain creation,
/// vertex buffer writing, shader loading. The first failing step decides the
/// error; nothing is rolled back.
pub fn create_device_session(
    physical: &Arc<vulkano::device::physical::PhysicalDevice>,
    surface: &Arc<vulkano::swapchain::Surface>,
) -> (r: Result<DeviceSession, RenderError>)
    ensures
        r is Ok ==> {
            let s = r.unwrap();
            &&& s.queue_family_index < s.families@.len()
            &&& family_qualifies(s.families@[s.queue_family_index as int])
            &&& forall|j: int|
                0 <= j < s.queue_family_index ==> !family_qualifies(s.families@[j])
            &&& s.vert@ == words_of(test_vert_payload())
            &&& s.frag@ == words_of(test_frag_payload())
            &&& s.vert@.len() == 228
            &&& s.vert@[0] == SPIRV_MAGIC
            &&& s.frag@.len() == 105
            &&& s.plan.min_image_count == 3
            &&& s.plan.format == ImageFormat::R8G8B8A8Srgb
            &&& s.plan.transform == SurfaceTransformKind::Identity
            &&& s.plan.composite_alpha == CompositeAlphaKind::Opaque
            &&& s.vertex_buffer@ == triangle_positions_spec()
        },
        r is Err ==> (r->Err_0 == RenderError::NoSuitableQueue || r->Err_0
            == RenderError::DeviceCreationFailed || r->Err_0
            == RenderError::CapabilityNotSupported || r->Err_0
            == RenderError::SurfaceCapabilitiesUnavailable || r->Err_0
            == RenderError::SwapchainCreationFailed),
{
    let (queue_family_index, families) = match select_presentation_queue(physical, surface) {
        Ok(p) => p,
        Err(e) => {
            return Err(e);
        },
    };
    let (device, queue) = match create_device(physical, queue_family_index) {
        Ok(p) => p,
        Err(e) => {
            return Err(e);
        },
    };
    let (swapchain, images, plan) = match create_swapchain(physical, &device, surface) {
        Ok(t) => t,
        Err(e) => {
            return Err(e);
        },
    };
    let vertex_buffer = create_vertex_buffer();
    let (vert, frag) = match load_shaders(&device) {
        Ok(p) => p,
        Err(e) => {
            return Err(e);
        },
    };
    Ok(
        DeviceSession {
            device,
            queue,
            queue_family_index,
            families,
            vert,
            frag,
            swapchain,
            images,
            plan,
            vertex_buffer,
        },
    )
}

/// The long-lived session: the swapchain and queue it presents on, one
/// framebuffer per swapchain image, the plan of each image's pre-recorded
/// command buffer, the tracked in-flight submissions, and the loop phase.
pub struct Render {
    pub swapchain: Arc<vulkano::swapchain::Swapchain>,
    pub queue: Arc<vulkano::device::Queue>,
    pub framebuffers: Vec<Arc<vulkano::render_pass::Framebuffer>>,
    pub command_buffer_plans: Vec<CommandBufferPlan>,
    pub submissions: SubmissionSet,
    pub phase: Phase,
}

impl Render {
    /// The session invariant: one command-buffer plan per framebuffer, plan
    /// `i` targeting image `i`, and a well-formed submission tracker.
    pub open spec fn wf(&self) -> bool {
        &&& self.command_buffer_plans@ == command_buffer_plans_spec(self.framebuffers@.len() as nat)
        &&& self.submissions.wf()
    }

    /// Assembles the session once the render pass exists: builds one
    /// framebuffer and one command-buffer plan per swapchain image and starts
    /// the loop phase with nothing in flight. Fails only as
    /// `build_framebuffers` does.
    pub fn new(
        swapchain: Arc<vulkano::swapchain::Swapchain>,
        queue: Arc<vulkano::device::Queue>,
        render_pass: &Arc<vulkano::render_pass::RenderPass>,
        images: &Vec<Arc<vulkano::image::Image>>,
    ) -> (r: Result<Render, RenderError>)
        ensures
            r is Ok ==> {
                let s = r.unwrap();
                &&& s.wf()
                &&& s.framebuffers@.len() == images@.len()
                &&& s.command_buffer_plans@.len() == images@.len()
                &&& s.submissions@.len() == 0
                &&& s.submissions.can_record()
                &&& s.phase == Phase::Running
            },
            r is Err ==> r->Err_0 == RenderError::ImageViewCreationFailed,
    {
        let framebuffers = match build_framebuffers(render_pass, images) {
            Ok(f) => f,
            Err(e) => {
                return Err(e);
            },
        };
        let command_buffer_plans = record_command_buffer_plans(framebuffers.len());
        Ok(
            Render {
                swapchain,
                queue,
                framebuffers,
                command_buffer_plans,
                submissions: SubmissionSet::new(),
                phase: Phase::Running,
            },
        )
    }

    /// In every well-formed session there are exactly as many pre-recorded
    /// command buffers as framebuffers, one per swapchain image, and the plan
    /// at position `i` targets image `i`.
    pub proof fn lemma_one_command_buffer_per_framebuffer(&self)
        requires
            self.wf(),
        ensures
            self.command_buffer_plans@.len() == self.framebuffers@.len(),
            forall|i: int|
                0 <= i < self.framebuffers@.len()
                    ==> self.command_buffer_plans@[i].image_index == i,
    {
        vstd::std_specs::vec::axiom_spec_len(&self.framebuffers);
        crate::plan::lemma_one_command_buffer_per_image(self.framebuffers@.len() as nat);
    }

    /// The first step of every loop iteration: every tracked submission the
    /// batch marks retired is dropped, before the next image is acquired.
    pub fn retire_submissions(&mut self, retired: &Vec<bool>)
        requires
            old(self).wf(),
            retired@.len() == old(self).submissions@.len(),
        ensures
            final(self).wf(),
            final(self).submissions@ == prune_spec(old(self).submissions@, retired@),
            final(self).swapchain == old(self).swapchain,
            final(self).queue == old(self).queue,
            final(self).framebuffers == old(self).framebuffers,
            final(self).command_buffer_plans == old(self).command_buffer_plans,
            final(self).phase == old(self).phase,
    {
        self.submissions.prune(retired);
    }

    /// Records the submission of image `image_index`'s pre-recorded command
    /// buffer: a fresh handle is tracked and returned.
    pub fn note_submission(&mut self, image_index: usize) -> (id: u64)
        requires
            old(self).wf(),
            old(self).submissions.can_record(),
            image_index < old(self).framebuffers@.len(),
        ensures
            final(self).wf(),
            final(self).submissions@ == old(self).submissions@.push(id),
            !old(self).submissions@.contains(id),
            final(self).swapchain == old(self).swapchain,
            final(self).queue == old(self).queue,
            final(self).framebuffers == old(self).framebuffers,
            final(self).command_buffer_plans == old(self).command_buffer_plans,
            final(self).phase == old(self).phase,
    {
        self.submissions.record()
    }

    /// Drains one batch of window events: a close request ends the loop by
    /// moving the session to its terminated phase; every other event is
    /// ignored.
    pub fn handle_events(&mut self, events: &Vec<LoopEvent>) -> (close: bool)
        requires
            old(self).wf(),
        ensures
            final(self).wf(),
            close == any_closed(events@),
            close ==> final(self).phase == Phase::Terminated,
            !close ==> final(self).phase == old(self).phase,
            final(self).submissions == old(self).submissions,
            final(self).swapchain == old(self).swapchain,
            final(self).queue == old(self).queue,
            final(self).framebuffers == old(self).framebuffers,
            final(self).command_buffer_plans == old(self).command_buffer_plans,
    {
        let close = crate::run_loop::poll_close(events);
        if close {
            self.phase = Phase::Terminated;
        }
        close
    }
}

} // verus!
