//! The decisions of session initialization, over plain values: which adapter
//! is used, which queue family, which extent the swapchain gets, and what the
//! pre-recorded command buffer of each swapchain image does.

use vstd::prelude::*;
use crate::error::RenderError;

verus! {

/// Width and height of a surface, in pixels.
#[derive(Clone, Copy, Debug, PartialEq, Eq, Structural)]
pub struct Extent2D {
    pub width: u32,
    pub height: u32,
}

/// Width of the fixed fallback extent, used when the surface reports an
/// undefined current extent.
pub const DEFAULT_WIDTH: u32 = 600;

/// Height of the fixed fallback extent.
pub const DEFAULT_HEIGHT: u32 = 800;

/// The fixed fallback extent.
pub open spec fn default_extent() -> Extent2D {
    Extent2D { width: DEFAULT_WIDTH, height: DEFAULT_HEIGHT }
}

/// The extent the swapchain is created with: the surface's reported current
/// extent, or the fixed default where the report is undefined.
pub fn swapchain_extent(current: Option<Extent2D>) -> (e: Extent2D)
    ensures
        current is Some ==> e == current.unwrap(),
        current is None ==> e == default_extent(),
{
    match current {
        Option::Some(c) => c,
        Option::None => Extent2D { width: DEFAULT_WIDTH, height: DEFAULT_HEIGHT },
    }
}

/// What the context reports of one hardware adapter. The fields are only
/// logged; selection takes the first enumerated adapter.
#[derive(Clone, Debug)]
pub struct AdapterDesc {
    pub name: String,
    pub device_type: String,
}

/// Selects the adapter to use: the first one enumerated. Fails with
/// `NoDeviceFound` exactly when none was enumerated.
pub fn select_adapter(adapters: &Vec<AdapterDesc>) -> (r: Result<usize, RenderError>)
    ensures
        adapters@.len() == 0 ==> r == Err::<usize, RenderError>(RenderError::NoDeviceFound),
        adapters@.len() > 0 ==> r == Ok::<usize, RenderError>(0usize),
{
    if adapters.len() == 0 {
        Err(RenderError::NoDeviceFound)
    } else {
        Ok(0)
    }
}

/// What is known of one queue family: whether it supports graphics work, and
/// whether the surface reported presentation support for it (`None` where the
/// report itself failed).
#[derive(Clone, Copy, Debug)]
pub struct QueueFamilyDesc {
    pub supports_graphics: bool,
    pub surface_support: Option<bool>,
}

/// A family qualifies when it supports graphics and the surface positively
/// reported presentation support; a failed report counts as no support.
pub open spec fn family_qualifies(q: QueueFamilyDesc) -> bool {
    q.supports_graphics && q.surface_support == Some(true)
}

/// Selects the queue family used for both graphics and presentation: the
/// first qualifying one. Fails with `NoSuitableQueue` exactly when none
/// qualifies.
pub fn select_queue_family(families: &Vec<QueueFamilyDesc>) -> (r: Result<usize, RenderError>)
    ensures
        r is Ok ==> {
            &&& r.unwrap() < families@.len()
            &&& family_qualifies(families@[r.unwrap() as int])
            &&& forall|j: int| 0 <= j < r.unwrap() ==> !family_qualifies(families@[j])
        },
        r is Err ==> r == Err::<usize, RenderError>(RenderError::NoSuitableQueue),
        (r is Err) <==> (forall|j: int| 0 <= j < families@.len() ==> !family_qualifies(families@[j])),
{
    let n = families.len();
    let mut k: usize = 0;
    while k < n
        invariant
            k <= n,
            n == families@.len(),
            forall|j: int| 0 <= j < k ==> !family_qualifies(families@[j]),
        decreases n - k,
    {
        let q = families[k];
        let supported = match q.surface_support {
            Option::Some(s) => s,
            Option::None => false,
        };
        if q.supports_graphics && supported {
            return Ok(k);
        }
        k = k + 1;
    }
    Err(RenderError::NoSuitableQueue)
}

/// Bit pattern of 1.0, used by the fixed clear color.
pub const ONE_BITS: u32 = 0x3F80_0000;

/// A color as four single-precision bit patterns.
#[derive(Clone, Copy, Debug, PartialEq, Eq, Structural)]
pub struct ClearColor {
    pub r: u32,
    pub g: u32,
    pub b: u32,
    pub a: u32,
}

/// The fixed clear color: opaque blue.
pub open spec fn clear_color_spec() -> ClearColor {
    ClearColor { r: 0, g: 0, b: ONE_BITS, a: ONE_BITS }
}

/// What the pre-recorded command buffer of one swapchain image does: clear
/// that image to the fixed color, then draw the three-vertex buffer.
#[derive(Clone, Copy, Debug, PartialEq, Eq, Structural)]
pub struct CommandBufferPlan {
    pub image_index: usize,
    pub clear_color: ClearColor,
    pub vertex_count: u32,
}

/// The command-buffer plans for `n` swapchain images: one per image, in image
/// order.
pub open spec fn command_buffer_plans_spec(n: nat) -> Seq<CommandBufferPlan> {
    Seq::new(
        n,
        |i: int|
            CommandBufferPlan {
                image_index: i as usize,
                clear_color: clear_color_spec(),
                vertex_count: 3,
            },
    )
}

/// Produces the command-buffer plans for `n` swapchain images.
pub fn record_command_buffer_plans(n: usize) -> (r: Vec<CommandBufferPlan>)
    ensures
        r@ == command_buffer_plans_spec(n as nat),
{
    let mut r: Vec<CommandBufferPlan> = Vec::new();
    let mut k: usize = 0;
    while k < n
        invariant
            k <= n,
            r@ =~= command_buffer_plans_spec(n as nat).take(k as int),
        decreases n - k,
    {
        r.push(
            CommandBufferPlan {
                image_index: k,
                clear_color: ClearColor { r: 0, g: 0, b: ONE_BITS, a: ONE_BITS },
                vertex_count: 3,
            },
        );
        k = k + 1;
    }
    proof {
        assert(r@ =~= command_buffer_plans_spec(n as nat));
    }
    r
}

/// Which platform surface extensions the context is created with; the
/// surface extension itself is always requested.
#[derive(Clone, Copy, Debug, PartialEq, Eq, Structural)]
pub struct SurfaceExtensions {
    pub surface: bool,
    pub xlib: bool,
    pub xcb: bool,
    pub wayland: bool,
    pub win32: bool,
}

/// The surface extensions requested for a platform: the surface extension
/// always, the three Unix windowing extensions on Linux, the Win32 one on
/// Windows.
pub fn platform_surface_extensions(linux: bool, windows: bool) -> (e: SurfaceExtensions)
    ensures
        e.surface,
        e.xlib == linux,
        e.xcb == linux,
        e.wayland == linux,
        e.win32 == windows,
{
    SurfaceExtensions { surface: true, xlib: linux, xcb: linux, wayland: linux, win32: windows }
}

/// The fixed color format of the swapchain and of the render pass.
#[derive(Clone, Copy, Debug, PartialEq, Eq, Structural)]
pub enum ImageFormat {
    R8G8B8A8Srgb,
}

/// How the swapchain composites with the rest of the screen; only opaque
/// compositing is used.
#[derive(Clone, Copy, Debug, PartialEq, Eq, Structural)]
pub enum CompositeAlphaKind {
    Opaque,
}

/// The transform applied to images before presentation; only the identity is
/// used.
#[derive(Clone, Copy, Debug, PartialEq, Eq, Structural)]
pub enum SurfaceTransformKind {
    Identity,
}

/// What happens to the color attachment when a pass begins; it is cleared.
#[derive(Clone, Copy, Debug, PartialEq, Eq, Structural)]
pub enum LoadOpKind {
    Clear,
}

/// What happens to the color attachment when a pass ends; it is stored.
#[derive(Clone, Copy, Debug, PartialEq, Eq, Structural)]
pub enum StoreOpKind {
    Store,
}

/// The fixed render-pass configuration: a single subpass over a single color
/// attachment that is cleared on load and stored on completion.
#[derive(Clone, Copy, Debug, PartialEq, Eq, Structural)]
pub struct RenderPassPlan {
    pub format: ImageFormat,
    pub load_op: LoadOpKind,
    pub store_op: StoreOpKind,
    pub attachment_count: usize,
    pub subpass_count: usize,
}

/// The render-pass plan of this session.
pub fn render_pass_plan() -> (p: RenderPassPlan)
    ensures
        p.format == ImageFormat::R8G8B8A8Srgb,
        p.load_op == LoadOpKind::Clear,
        p.store_op == StoreOpKind::Store,
        p.attachment_count == 1,
        p.subpass_count == 1,
{
    RenderPassPlan {
        format: ImageFormat::R8G8B8A8Srgb,
        load_op: LoadOpKind::Clear,
        store_op: StoreOpKind::Store,
        attachment_count: 1,
        subpass_count: 1,
    }
}

/// The primitive topology of the pipeline; only a triangle list is drawn.
#[derive(Clone, Copy, Debug, PartialEq, Eq, Structural)]
pub enum TopologyKind {
    TriangleList,
}

/// The fixed graphics-pipeline configuration: triangle-list topology, one
/// fixed viewport and scissor at the hardcoded resolution, multisampling
/// disabled, blending disabled with an all-zero blend constant, an empty
/// resource layout, and the first subpass of the render pass.
#[derive(Clone, Copy, Debug)]
pub struct PipelinePlan {
    pub topology: TopologyKind,
    pub viewport_origin: [u32; 2],
    pub viewport_extent: Extent2D,
    pub depth_min_bits: u32,
    pub depth_max_bits: u32,
    pub scissor_origin: [u32; 2],
    pub scissor_extent: Extent2D,
    pub multisampling: bool,
    pub blending_enabled: bool,
    pub blend_constants: [u32; 4],
    pub descriptor_set_count: usize,
    pub subpass_index: u32,
    pub vertex_stride: u32,
    pub position_location: u32,
}

/// The pipeline plan of this session. The viewport and scissor are the
/// hardcoded 1244 by 699 pixels; the depth range is zero to one, as bit
/// patterns; the vertex stride is the eight bytes of one two-component
/// position.
pub fn pipeline_plan() -> (p: PipelinePlan)
    ensures
        p.topology == TopologyKind::TriangleList,
        p.viewport_origin == [0u32, 0u32],
        p.viewport_extent == (Extent2D { width: 1244, height: 699 }),
        p.depth_min_bits == 0,
        p.depth_max_bits == ONE_BITS,
        p.scissor_origin == [0u32, 0u32],
        p.scissor_extent == (Extent2D { width: 1244, height: 699 }),
        !p.multisampling,
        !p.blending_enabled,
        p.blend_constants == [0u32, 0u32, 0u32, 0u32],
        p.descriptor_set_count == 0,
        p.subpass_index == 0,
        p.vertex_stride == 8,
        p.position_location == 0,
{
    PipelinePlan {
        topology: TopologyKind::TriangleList,
        viewport_origin: [0, 0],
        viewport_extent: Extent2D { width: 1244, height: 699 },
        depth_min_bits: 0,
        depth_max_bits: ONE_BITS,
        scissor_origin: [0, 0],
        scissor_extent: Extent2D { width: 1244, height: 699 },
        multisampling: false,
        blending_enabled: false,
        blend_constants: [0, 0, 0, 0],
        descriptor_set_count: 0,
        subpass_index: 0,
        vertex_stride: 8,
        position_location: 0,
    }
}

/// One pre-recorded command buffer per swapchain image: the plan list for `n`
/// images has length `n`, and the plan at position `i` targets image `i`.
pub proof fn lemma_one_command_buffer_per_image(n: nat)
    requires
        n <= usize::MAX,
    ensures
        command_buffer_plans_spec(n).len() == n,
        forall|i: int| 0 <= i < n ==> command_buffer_plans_spec(n)[i].image_index == i,
{
}

} // verus!
