use framehost::depth::DepthFormat;
use framehost::pipelines::BindingKind;
use framehost::pipelines::create_buffer_descriptors;
use framehost::pipelines::create_depth_texture;
use framehost::pipelines::create_main_pipeline;
use framehost::pipelines::DepthCompare;
use framehost::surface::SurfaceConfig;

#[test]
fn depth_texture_matches_requested_dimensions() {
    let t = create_depth_texture(640, 480);
    assert_eq!((t.width, t.height), (640, 480));
    assert_eq!(t.format, DepthFormat::Depth32Float);
    assert_eq!(t.mip_level_count, 1);
    assert_eq!(t.sample_count, 1);
}

#[test]
fn main_pipeline_bakes_fixed_state() {
    let p = create_main_pipeline(7);
    assert!(p.primitive.cull_back_faces);
    assert!(p.primitive.front_face_ccw);
    assert_eq!(p.depth_stencil.format, DepthFormat::Depth32Float);
    assert!(p.depth_stencil.depth_write_enabled);
    assert_eq!(p.depth_stencil.compare, DepthCompare::Less);
    assert_eq!(p.vertex_layout.array_stride, 20);
    assert_eq!(p.surface_format, 7);
}

#[test]
fn single_uniform_binding_visible_everywhere() {
    let b = create_buffer_descriptors();
    assert_eq!(b.binding, 0);
    assert!(b.visible_to_all_stages);
    assert_eq!(b.kind, BindingKind::UniformBuffer);
}

#[test]
fn surface_configure_clamps_and_keeps_format() {
    let mut cfg = SurfaceConfig::new(1280, 720, 3);
    cfg.configure(0, 505);
    assert_eq!((cfg.width, cfg.height), (1, 505));
    assert_eq!(cfg.format, 3);
}
