use render_core::error::RenderError;
use render_core::plan::{
    record_command_buffer_plans, select_adapter, select_queue_family, swapchain_extent,
    AdapterDesc, Extent2D, QueueFamilyDesc,
};
use render_core::render::create_context;
use render_core::plan::SurfaceExtensions;
use render_core::run_loop::{poll_close, LoopEvent, SubmissionSet};
use render_core::vertex::{
    triangle_positions, Vertex, VertexBuffer, HALF_BITS, NEG_HALF_BITS, NEG_QUARTER_BITS,
    NEG_TENTH_BITS, ZERO_BITS,
};

#[test]
fn vertex_round_trip_any_three_points() {
    let mut buf = VertexBuffer::array(3);
    let v0 = Vertex { position: [0x3F40_0000, 0xBF20_0000] };
    let v1 = Vertex { position: [0x0000_0001, 0xFFFF_FFFF] };
    let v2 = Vertex { position: [0xDEAD_BEEF, 0x1234_5678] };
    buf.write(0, v0);
    buf.write(1, v1);
    buf.write(2, v2);
    assert_eq!(buf.read(0), v0);
    assert_eq!(buf.read(1), v1);
    assert_eq!(buf.read(2), v2);
}

#[test]
fn vertex_round_trip_triangle() {
    let mut buf = VertexBuffer::array(3);
    buf.write_triangle();
    assert_eq!(buf.read(0), Vertex { position: [NEG_HALF_BITS, NEG_QUARTER_BITS] });
    assert_eq!(buf.read(1), Vertex { position: [ZERO_BITS, HALF_BITS] });
    assert_eq!(buf.read(2), Vertex { position: [NEG_QUARTER_BITS, NEG_TENTH_BITS] });
}

#[test]
fn triangle_positions_are_the_fixed_points() {
    let v = triangle_positions();
    assert_eq!(v.len(), 3);
    // -0.5, -0.25, 0.0, 0.5, -0.1 as single-precision bit patterns
    assert_eq!(v[0].position, [(-0.5f32).to_bits(), (-0.25f32).to_bits()]);
    assert_eq!(v[1].position, [0.0f32.to_bits(), 0.5f32.to_bits()]);
    assert_eq!(v[2].position, [(-0.25f32).to_bits(), (-0.1f32).to_bits()]);
}

#[test]
fn vertex_from_bits() {
    let v = Vertex::from([7, 9]);
    assert_eq!(v.position, [7, 9]);
}

#[test]
fn command_buffers_match_image_count() {
    for n in [0usize, 1, 3, 5] {
        let plans = record_command_buffer_plans(n);
        assert_eq!(plans.len(), n);
        for (i, p) in plans.iter().enumerate() {
            assert_eq!(p.image_index, i);
            assert_eq!(p.vertex_count, 3);
            assert_eq!(p.clear_color.r, 0);
            assert_eq!(p.clear_color.g, 0);
            assert_eq!(p.clear_color.b, 1.0f32.to_bits());
            assert_eq!(p.clear_color.a, 1.0f32.to_bits());
        }
    }
}

#[test]
fn undefined_extent_falls_back_to_default() {
    let e = swapchain_extent(None);
    assert_eq!(e, Extent2D { width: 600, height: 800 });
}

#[test]
fn reported_extent_is_kept() {
    let e = swapchain_extent(Some(Extent2D { width: 1244, height: 699 }));
    assert_eq!(e, Extent2D { width: 1244, height: 699 });
}

#[test]
fn no_adapter_is_no_device_found() {
    let adapters: Vec<AdapterDesc> = Vec::new();
    assert_eq!(select_adapter(&adapters), Err(RenderError::NoDeviceFound));
}

#[test]
fn first_adapter_is_selected() {
    let adapters = vec![
        AdapterDesc { name: "a".to_string(), device_type: "Cpu".to_string() },
        AdapterDesc { name: "b".to_string(), device_type: "DiscreteGpu".to_string() },
    ];
    assert_eq!(select_adapter(&adapters), Ok(0));
}

#[test]
fn no_qualifying_family_is_no_suitable_queue() {
    let fams = vec![
        QueueFamilyDesc { supports_graphics: true, surface_support: Some(false) },
        QueueFamilyDesc { supports_graphics: false, surface_support: Some(true) },
        QueueFamilyDesc { supports_graphics: true, surface_support: None },
    ];
    assert_eq!(select_queue_family(&fams), Err(RenderError::NoSuitableQueue));
    let empty: Vec<QueueFamilyDesc> = Vec::new();
    assert_eq!(select_queue_family(&empty), Err(RenderError::NoSuitableQueue));
}

#[test]
fn first_qualifying_family_is_selected() {
    let fams = vec![
        QueueFamilyDesc { supports_graphics: true, surface_support: Some(false) },
        QueueFamilyDesc { supports_graphics: true, surface_support: Some(true) },
        QueueFamilyDesc { supports_graphics: true, surface_support: Some(true) },
    ];
    assert_eq!(select_queue_family(&fams), Ok(1));
}

#[test]
fn retired_submissions_are_dropped_in_one_pass() {
    let mut s = SubmissionSet::new();
    let a = s.record();
    let b = s.record();
    let c = s.record();
    assert_eq!(s.len(), 3);
    // a and c retire; the pass must drop them and keep b.
    s.prune(&vec![true, false, true]);
    assert_eq!(s.len(), 1);
    let kept = s.record();
    assert_ne!(kept, a);
    assert_ne!(kept, b);
    assert_ne!(kept, c);
}

#[test]
fn unretired_submissions_are_kept() {
    let mut s = SubmissionSet::new();
    s.record();
    s.record();
    s.prune(&vec![false, false]);
    assert_eq!(s.len(), 2);
    s.prune(&vec![true, true]);
    assert_eq!(s.len(), 0);
}

#[test]
fn fresh_handles_are_never_reused() {
    let mut s = SubmissionSet::new();
    let a = s.record();
    s.prune(&vec![true]);
    let b = s.record();
    assert_ne!(a, b);
}

#[test]
fn close_event_ends_the_loop() {
    assert!(poll_close(&vec![LoopEvent::Other, LoopEvent::Closed, LoopEvent::Other]));
    assert!(!poll_close(&vec![LoopEvent::Other, LoopEvent::Other]));
    assert!(!poll_close(&Vec::new()));
}

#[test]
fn pipeline_plan_is_the_fixed_configuration() {
    let p = render_core::plan::pipeline_plan();
    assert_eq!(p.viewport_extent, Extent2D { width: 1244, height: 699 });
    assert_eq!(p.scissor_extent, Extent2D { width: 1244, height: 699 });
    assert_eq!(p.viewport_origin, [0, 0]);
    assert_eq!(p.scissor_origin, [0, 0]);
    assert_eq!(p.depth_min_bits, 0.0f32.to_bits());
    assert_eq!(p.depth_max_bits, 1.0f32.to_bits());
    assert!(!p.multisampling);
    assert!(!p.blending_enabled);
    assert_eq!(p.blend_constants, [0.0f32.to_bits(); 4]);
    assert_eq!(p.descriptor_set_count, 0);
    assert_eq!(p.subpass_index, 0);
    assert_eq!(p.vertex_stride, 8);
    assert_eq!(p.position_location, 0);
}

#[test]
fn render_pass_plan_clears_and_stores_one_attachment() {
    let p = render_core::plan::render_pass_plan();
    assert_eq!(p.attachment_count, 1);
    assert_eq!(p.subpass_count, 1);
    assert!(matches!(p.load_op, render_core::plan::LoadOpKind::Clear));
    assert!(matches!(p.store_op, render_core::plan::StoreOpKind::Store));
}

#[test]
fn platform_extensions_always_request_the_surface() {
    let linux = render_core::plan::platform_surface_extensions(true, false);
    assert!(linux.surface && linux.xlib && linux.xcb && linux.wayland && !linux.win32);
    let windows = render_core::plan::platform_surface_extensions(false, true);
    assert!(windows.surface && !windows.xlib && !windows.xcb && !windows.wayland && windows.win32);
}

#[test]
fn error_messages_name_the_failure() {
    assert_eq!(RenderError::NoDeviceFound.message(), "No devices found.");
    assert_eq!(RenderError::NoSuitableQueue.message(), "Failed to find graphics command queue");
}

#[test]
fn context_creation_reports_within_the_taxonomy() {
    // With no display attached this fails at the library or instance step; on
    // a machine with a graphics stack it succeeds with at least one adapter.
    let ext = SurfaceExtensions { surface: true, xlib: false, xcb: false, wayland: false, win32: false };
    match create_context(&ext) {
        Ok(ctx) => assert!(!ctx.adapters.is_empty()),
        Err(e) => assert!(
            e == RenderError::ContextCreationFailed || e == RenderError::NoDeviceFound
        ),
    }
}
