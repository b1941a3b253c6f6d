use renderer_core::BindGroupLayout;
use renderer_core::FrameState;
use renderer_core::RenderError;
use renderer_core::RenderPipelineId;
use renderer_core::Renderer;
use renderer_core::SurfaceSize;

fn window() -> SurfaceSize {
    SurfaceSize { width: 320, height: 240 }
}

#[test]
fn ids_are_issued_in_creation_order() {
    let mut r = Renderer::new(1, window(), None);
    let shader_a = r.load_shader_from_memory("a shader");
    let shader_b = r.load_shader_from_memory("b shader");
    let layout = r.create_pipeline_layout(&[]);
    let id_a = r.create_render_pipeline(&layout, &shader_a).unwrap();
    let id_b = r.create_render_pipeline(&layout, &shader_b).unwrap();
    assert_eq!(id_a.0, 0);
    assert_eq!(id_b.0, 1);
    assert_eq!(r.resolve(id_a).unwrap().shader_source, "a shader");
    assert_eq!(r.resolve(id_b).unwrap().shader_source, "b shader");
    assert_eq!(r.resolve(RenderPipelineId(2)).unwrap_err(), RenderError::InvalidHandle);
}

#[test]
fn resolve_refuses_every_unissued_id() {
    let mut r = Renderer::new(1, window(), None);
    assert_eq!(r.resolve(RenderPipelineId(0)).unwrap_err(), RenderError::InvalidHandle);
    let shader = r.load_shader_from_memory("s");
    let layout = r.create_pipeline_layout(&[]);
    let id = r.create_render_pipeline(&layout, &shader).unwrap();
    assert!(r.resolve(id).is_ok());
    assert_eq!(r.resolve(RenderPipelineId(1)).unwrap_err(), RenderError::InvalidHandle);
    assert_eq!(r.resolve(RenderPipelineId(usize::MAX)).unwrap_err(), RenderError::InvalidHandle);
}

#[test]
fn pipeline_records_format_and_layout_at_creation() {
    let mut r = Renderer::new(42, window(), None);
    let shader = r.load_shader_from_memory("wgsl text");
    let groups = [BindGroupLayout { slot: 0 }, BindGroupLayout { slot: 1 }];
    let layout = r.create_pipeline_layout(&groups);
    assert_eq!(layout.group_count, 2);
    let id = r.create_render_pipeline(&layout, &shader).unwrap();
    let p = r.resolve(id).unwrap();
    assert_eq!(p.target_format, 42);
    assert_eq!(p.layout_groups, 2);
    assert_eq!(p.shader_source, "wgsl text");
}

#[test]
fn loaded_shader_keeps_its_text() {
    let r = Renderer::new(1, window(), None);
    let shader = r.load_shader_from_memory("@vertex fn vs_main() {}");
    assert_eq!(shader.source, "@vertex fn vs_main() {}");
}

#[test]
fn creating_a_pipeline_mid_frame_is_refused() {
    let mut r = Renderer::new(1, window(), None);
    let shader = r.load_shader_from_memory("s");
    let layout = r.create_pipeline_layout(&[]);
    r.begin_frame(true).unwrap();
    assert_eq!(r.create_render_pipeline(&layout, &shader).unwrap_err(), RenderError::FrameActive);
    assert_eq!(r.frame, FrameState::Acquired);
    assert_eq!(r.pipelines.len(), 0);
}

#[test]
fn an_issued_id_resolves_to_the_same_record_for_the_registry_life() {
    let mut r = Renderer::new(3, window(), None);
    let shader_a = r.load_shader_from_memory("a shader");
    let layout = r.create_pipeline_layout(&[]);
    let id_a = r.create_render_pipeline(&layout, &shader_a).unwrap();
    let shader_b = r.load_shader_from_memory("b shader");
    let _ = r.create_render_pipeline(&layout, &shader_b).unwrap();
    r.set_surface_size(SurfaceSize { width: 64, height: 64 });
    r.begin_frame(true).unwrap();
    let builder = r.open_pass(renderer_core::Color { r: 0, g: 0, b: 0, a: 255 }).unwrap();
    r.end_pass(builder).unwrap();
    r.present().unwrap();
    let p = r.resolve(id_a).unwrap();
    assert_eq!(p.shader_source, "a shader");
    assert_eq!(p.target_format, 3);
}
