use render_core::error::RenderError;
use render_core::shaders::test_frag::{test_frag_bytes, TestFrag};
use render_core::shaders::test_vert::{test_vert_bytes, TestVert};
use render_core::shaders::{spirv_words, DeviceFeatures, ShaderStage};

#[test]
fn word_conversion_is_little_endian() {
    let bytes = vec![3u8, 2, 35, 7, 0, 1, 0, 0];
    let words = spirv_words(&bytes);
    assert_eq!(words, vec![0x0723_0203, 0x0000_0100]);
}

#[test]
fn word_conversion_of_empty_payload() {
    let words = spirv_words(&Vec::new());
    assert!(words.is_empty());
}

#[test]
fn payloads_carry_the_magic_number() {
    let vert = test_vert_bytes();
    assert_eq!(vert.len(), 912);
    assert_eq!(&vert[..4], &[3, 2, 35, 7]);
    let frag = test_frag_bytes();
    assert_eq!(frag.len(), 420);
    assert_eq!(&frag[..4], &[3, 2, 35, 7]);
}

#[test]
fn vertex_loader_gates_on_both_capabilities() {
    for (clip, cull) in [(false, false), (false, true), (true, false)] {
        let features = DeviceFeatures {
            shader_clip_distance: clip,
            shader_cull_distance: cull,
        };
        match TestVert::load(&features) {
            Err(e) => assert_eq!(e, RenderError::CapabilityNotSupported),
            Ok(_) => panic!("loader accepted a device lacking a checked capability"),
        }
    }
}

#[test]
fn vertex_loader_accepts_a_capable_device() {
    let features = DeviceFeatures { shader_clip_distance: true, shader_cull_distance: true };
    let vert = TestVert::load(&features).unwrap();
    let words = vert.module();
    assert_eq!(words.len(), 228);
    assert_eq!(words[0], 0x0723_0203);
    // spot-check against the embedded payload
    assert_eq!(words, &spirv_words(&test_vert_bytes()));
}

#[test]
fn fragment_loader_has_no_gate() {
    let frag = TestFrag::load();
    let words = frag.module();
    assert_eq!(words.len(), 105);
    assert_eq!(words[0], 0x0723_0203);
    assert_eq!(words, &spirv_words(&test_frag_bytes()));
}

#[test]
fn vertex_entry_point_is_main_with_position_input() {
    let features = DeviceFeatures { shader_clip_distance: true, shader_cull_distance: true };
    let vert = TestVert::load(&features).unwrap();
    let ep = vert.main_entry_point();
    assert_eq!(ep.name, "main");
    assert_eq!(ep.stage, ShaderStage::Vertex);
    assert_eq!(ep.inputs.len(), 1);
    assert_eq!(ep.inputs[0].location, 0);
    assert_eq!(ep.inputs[0].name, "position");
}

#[test]
fn fragment_entry_point_is_main_without_inputs() {
    let frag = TestFrag::load();
    let ep = frag.main_entry_point();
    assert_eq!(ep.name, "main");
    assert_eq!(ep.stage, ShaderStage::Fragment);
    assert!(ep.inputs.is_empty());
}

#[test]
fn layouts_declare_no_bindings() {
    let v = render_core::shaders::test_vert::Layout;
    assert!(v.decode_descriptor_set_layouts().is_empty());
    assert!(v.decode_descriptor_sets().is_empty());
    let f = render_core::shaders::test_frag::Layout;
    assert!(f.decode_descriptor_set_layouts().is_empty());
    assert!(f.decode_descriptor_sets().is_empty());
}
