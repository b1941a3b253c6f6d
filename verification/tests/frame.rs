use renderer_core::Color;
use renderer_core::FrameState;
use renderer_core::PassCommand;
use renderer_core::RenderError;
use renderer_core::RenderPassBuilder;
use renderer_core::RenderPipelineId;
use renderer_core::Renderer;
use renderer_core::SurfaceSize;

fn window() -> SurfaceSize {
    SurfaceSize { width: 320, height: 240 }
}

fn cornflower_blue() -> Color {
    Color { r: 100, g: 149, b: 237, a: 255 }
}

#[test]
fn a_frame_steps_through_the_full_cycle() {
    let mut r = Renderer::new(1, window(), None);
    assert_eq!(r.frame, FrameState::Idle);
    r.begin_frame(true).unwrap();
    assert_eq!(r.frame, FrameState::Acquired);
    let builder = r.open_pass(cornflower_blue()).unwrap();
    assert_eq!(r.frame, FrameState::PassOpen);
    let report = r.end_pass(builder).unwrap();
    assert_eq!(r.frame, FrameState::Submitted);
    assert_eq!(report.clear_color, cornflower_blue());
    r.present().unwrap();
    assert_eq!(r.frame, FrameState::Idle);
}

#[test]
fn starting_a_second_frame_while_one_is_in_flight_is_rejected() {
    let mut r = Renderer::new(1, window(), None);
    r.begin_frame(true).unwrap();
    assert_eq!(r.begin_frame(true).unwrap_err(), RenderError::FrameActive);
    assert_eq!(r.frame, FrameState::Acquired);
    let _ = r.open_pass(cornflower_blue()).unwrap();
    assert_eq!(r.begin_frame(true).unwrap_err(), RenderError::FrameActive);
    assert_eq!(r.frame, FrameState::PassOpen);
}

#[test]
fn frame_operations_out_of_order_are_rejected() {
    let mut r = Renderer::new(1, window(), None);
    assert_eq!(r.open_pass(cornflower_blue()).unwrap_err(), RenderError::InvalidTransition);
    assert_eq!(r.present().unwrap_err(), RenderError::InvalidTransition);
    let forged = RenderPassBuilder {
        clear_color: cornflower_blue(),
        pipeline_count: 0,
        commands: Vec::new(),
        bound: false,
    };
    assert_eq!(r.end_pass(forged).unwrap_err(), RenderError::InvalidTransition);
    assert_eq!(r.frame, FrameState::Idle);
}

#[test]
fn an_empty_pass_submits_a_clear_and_no_draws() {
    let mut r = Renderer::new(1, window(), None);
    let report = r.render_pass(true, cornflower_blue(), |b| b).unwrap();
    assert_eq!(report.clear_color, cornflower_blue());
    assert_eq!(report.commands.len(), 0);
    assert_eq!(r.frame, FrameState::Idle);
}

#[test]
fn a_pass_records_binds_and_draws_in_order() {
    let mut r = Renderer::new(1, window(), None);
    let shader = r.load_shader_from_memory("s");
    let layout = r.create_pipeline_layout(&[]);
    let id = r.create_render_pipeline(&layout, &shader).unwrap();
    let report = r
        .render_pass(true, cornflower_blue(), |mut b: RenderPassBuilder| {
            b.set_pipeline(id).unwrap();
            b.draw(0..3, 0..1).unwrap();
            b
        })
        .unwrap();
    assert_eq!(report.commands.len(), 2);
    match &report.commands[0] {
        PassCommand::SetPipeline(bound) => assert_eq!(bound.0, 0),
        other => panic!("expected a bind, got {:?}", other),
    }
    match &report.commands[1] {
        PassCommand::Draw { vertices, instances } => {
            assert_eq!(vertices.clone(), 0..3);
            assert_eq!(instances.clone(), 0..1);
        },
        other => panic!("expected a draw, got {:?}", other),
    }
    assert_eq!(r.frame, FrameState::Idle);
}

#[test]
fn drawing_before_binding_a_pipeline_is_refused() {
    let mut r = Renderer::new(1, window(), None);
    let shader = r.load_shader_from_memory("s");
    let layout = r.create_pipeline_layout(&[]);
    let id = r.create_render_pipeline(&layout, &shader).unwrap();
    r.begin_frame(true).unwrap();
    let mut builder = r.open_pass(cornflower_blue()).unwrap();
    assert_eq!(builder.draw(0..3, 0..1).unwrap_err(), RenderError::NoPipelineBound);
    builder.set_pipeline(id).unwrap();
    builder.draw(0..3, 0..1).unwrap();
    let report = r.end_pass(builder).unwrap();
    assert_eq!(report.commands.len(), 2);
}

#[test]
fn binding_an_unissued_id_is_refused() {
    let mut r = Renderer::new(1, window(), None);
    r.begin_frame(true).unwrap();
    let mut builder = r.open_pass(cornflower_blue()).unwrap();
    assert_eq!(
        builder.set_pipeline(RenderPipelineId(0)).unwrap_err(),
        RenderError::InvalidHandle
    );
    assert_eq!(builder.commands.len(), 0);
}

#[test]
fn a_forged_command_stream_is_refused_at_submission() {
    let mut r = Renderer::new(1, window(), None);
    r.begin_frame(true).unwrap();
    let _ = r.open_pass(cornflower_blue()).unwrap();
    let mut commands = Vec::new();
    commands.push(PassCommand::SetPipeline(RenderPipelineId(5)));
    let forged = RenderPassBuilder {
        clear_color: cornflower_blue(),
        pipeline_count: 99,
        commands,
        bound: true,
    };
    assert_eq!(r.end_pass(forged).unwrap_err(), RenderError::InvalidHandle);
    assert_eq!(r.frame, FrameState::PassOpen);
}

#[test]
fn render_pass_reports_transient_and_programming_errors() {
    let mut r = Renderer::new(1, window(), None);
    assert_eq!(
        r.render_pass(false, cornflower_blue(), |b| b).unwrap_err(),
        RenderError::AcquisitionFailed
    );
    assert_eq!(r.frame, FrameState::Idle);
    r.begin_frame(true).unwrap();
    assert_eq!(
        r.render_pass(true, cornflower_blue(), |b| b).unwrap_err(),
        RenderError::FrameActive
    );
}

#[test]
fn render_pass_abandons_a_frame_with_forged_handles() {
    let mut r = Renderer::new(1, window(), None);
    let report = r.render_pass(true, cornflower_blue(), |_b| RenderPassBuilder {
        clear_color: cornflower_blue(),
        pipeline_count: 9,
        commands: vec![PassCommand::SetPipeline(RenderPipelineId(3))],
        bound: true,
    });
    assert_eq!(report.unwrap_err(), RenderError::InvalidHandle);
    assert_eq!(r.frame, FrameState::Idle);
}
