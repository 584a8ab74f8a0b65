use lumen::draw::{
    plan_mesh_draw, plan_model_draw, plan_model_draw_with_material, DrawCall, MeshInfo,
};
use lumen::input::{requests_exit, MouseButtonKind, PointerState};
use lumen::layout::{model_vertex_layout, packed_layout, AttributeFormat, AttributeLayout};
use lumen::shaders::{shader_kind, ShaderKind};
use lumen::surface::{
    format_surface_index, hdr_extent, recovery_for, FrameError, FrameRecovery, SurfaceState,
};

#[test]
fn hdr_extent_never_empty() {
    assert_eq!(hdr_extent(0, 0), (1, 1));
    assert_eq!(hdr_extent(800, 0), (800, 1));
    assert_eq!(hdr_extent(1, 600), (1, 600));
    assert_eq!(hdr_extent(1920, 1080), (1920, 1080));
}

#[test]
fn surface_starts_unconfigured() {
    let s = SurfaceState::new(0, 0);
    assert!(!s.configured);
    assert!(!s.should_render());
    assert_eq!((s.hdr_width, s.hdr_height), (1, 1));
}

#[test]
fn resize_with_empty_side_is_ignored() {
    let mut s = SurfaceState::new(640, 480);
    let before = s;
    assert!(!s.resize(0, 480));
    assert!(!s.resize(640, 0));
    assert_eq!(s, before);
    assert!(!s.should_render());
}

#[test]
fn resize_configures_surface_and_hdr() {
    let mut s = SurfaceState::new(640, 480);
    assert!(s.resize(1024, 768));
    assert!(s.should_render());
    assert_eq!(
        s,
        SurfaceState { width: 1024, height: 768, configured: true, hdr_width: 1024, hdr_height: 768 }
    );
    let once = s;
    assert!(s.resize(1024, 768));
    assert_eq!(s, once);
    assert!(!s.resize(0, 0));
    assert!(s.should_render());
}

#[test]
fn surface_format_prefers_first_srgb() {
    assert_eq!(format_surface_index(&vec![false, true, true]), 1);
    assert_eq!(format_surface_index(&vec![true, false]), 0);
    assert_eq!(format_surface_index(&vec![false, false, false]), 0);
}

#[test]
fn frame_errors() {
    assert_eq!(recovery_for(FrameError::Lost), FrameRecovery::Reconfigure);
    assert_eq!(recovery_for(FrameError::Outdated), FrameRecovery::Reconfigure);
    assert_eq!(recovery_for(FrameError::Timeout), FrameRecovery::Report);
    assert_eq!(recovery_for(FrameError::OutOfMemory), FrameRecovery::Report);
    assert_eq!(recovery_for(FrameError::Other), FrameRecovery::Report);
}

#[test]
fn left_button_drags_camera() {
    let mut p = PointerState::new();
    assert!(!p.forwards_motion());
    p.handle_mouse_button(MouseButtonKind::Right, true);
    assert!(!p.forwards_motion());
    p.handle_mouse_button(MouseButtonKind::Left, true);
    assert!(p.forwards_motion());
    p.handle_mouse_button(MouseButtonKind::Other(7), false);
    assert!(p.forwards_motion());
    p.handle_mouse_button(MouseButtonKind::Left, false);
    assert!(!p.forwards_motion());
    p.handle_mouse_button(MouseButtonKind::Middle, true);
    assert!(!p.forwards_motion());
}

#[test]
fn escape_quits_unless_camera_took_it() {
    assert!(requests_exit(false, true, true));
    assert!(!requests_exit(true, true, true));
    assert!(!requests_exit(false, true, false));
    assert!(!requests_exit(false, false, true));
}

#[test]
fn shaders_by_name() {
    assert_eq!(shader_kind("object"), Some(ShaderKind::Object));
    assert_eq!(shader_kind("light"), Some(ShaderKind::Light));
    assert_eq!(shader_kind("hdr"), Some(ShaderKind::Hdr));
    assert_eq!(shader_kind("shadow"), None);
    assert_eq!(shader_kind(""), None);
    assert_eq!(shader_kind("hdr "), None);
}

#[test]
fn model_vertex_layout_offsets() {
    let layout = model_vertex_layout();
    assert_eq!(layout.array_stride, 56);
    let offsets: Vec<u64> = layout.attributes.iter().map(|a| a.offset).collect();
    assert_eq!(offsets, vec![0, 12, 20, 32, 44]);
    let locations: Vec<u32> = layout.attributes.iter().map(|a| a.shader_location).collect();
    assert_eq!(locations, vec![0, 1, 2, 3, 4]);
    assert_eq!(layout.attributes[1].format, AttributeFormat::Float32x2);
}

#[test]
fn packed_layout_of_two() {
    let layout = packed_layout(&vec![AttributeFormat::Float32x2, AttributeFormat::Float32x3]);
    assert_eq!(layout.array_stride, 20);
    assert_eq!(
        layout.attributes,
        vec![
            AttributeLayout { offset: 0, shader_location: 0, format: AttributeFormat::Float32x2 },
            AttributeLayout { offset: 8, shader_location: 1, format: AttributeFormat::Float32x3 },
        ]
    );
    assert_eq!(packed_layout(&vec![]).array_stride, 0);
}

#[test]
fn mesh_records() {
    let idx = vec![0u32, 1, 2, 0, 2, 3];
    assert_eq!(MeshInfo::primitive(&idx), MeshInfo { num_elements: 6, material: 0 });
    assert_eq!(MeshInfo::from_indices(&idx, Some(3)), MeshInfo { num_elements: 6, material: 3 });
    assert_eq!(MeshInfo::from_indices(&idx, None), MeshInfo { num_elements: 6, material: 0 });
}

#[test]
fn model_draw_plan() {
    let meshes = vec![
        MeshInfo { num_elements: 6, material: 1 },
        MeshInfo { num_elements: 36, material: 0 },
    ];
    let calls = plan_model_draw(&meshes, 2, 0, 4, true);
    assert_eq!(
        calls,
        vec![
            DrawCall { mesh: 0, material: 1, index_count: 6, instance_start: 0, instance_end: 4, bind_lights: true },
            DrawCall { mesh: 1, material: 0, index_count: 36, instance_start: 0, instance_end: 4, bind_lights: true },
        ]
    );
    let calls = plan_model_draw_with_material(&meshes, 5, 2, 3, false);
    assert!(calls.iter().all(|c| c.material == 5 && !c.bind_lights));
    assert_eq!(calls[1].index_count, 36);
    assert_eq!(
        plan_mesh_draw(1, meshes[1], 0, 0, 1, false),
        DrawCall { mesh: 1, material: 0, index_count: 36, instance_start: 0, instance_end: 1, bind_lights: false }
    );
    assert!(plan_model_draw(&vec![], 0, 0, 1, true).is_empty());
}
