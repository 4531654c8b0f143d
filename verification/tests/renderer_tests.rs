use render_core::color::{ClearColor, RawColor};
use render_core::context::{ContextError, Negotiation};
use render_core::frame::{Command, FatalCause, FramePlan, Phase, Recorder};
use render_core::input::InputState;
use render_core::pipeline::{PipelineKey, ShaderBinary, ShaderLinkError, StageKind};
use render_core::renderer::{BuildError, FrameOutcome, FrameRenderer, RenderError};
use render_core::surface::{
    Acquisition, ChainAction, Detail, FrameImage, PixelFormat, Status, SurfaceDescriptor,
};
use render_core::vertex::VertexDataError;

const FORMAT: PixelFormat = PixelFormat::Bgra8UnormSrgb;

fn shader(pipeline: PipelineKey, stage: StageKind) -> ShaderBinary {
    let mut bytes = vec![0x03, 0x02, 0x23, 0x07];
    bytes.resize(20, 0);
    ShaderBinary { pipeline, stage, bytes }
}

fn shaders() -> Vec<ShaderBinary> {
    vec![
        shader(PipelineKey::Default, StageKind::Vertex),
        shader(PipelineKey::Alternate, StageKind::Vertex),
        shader(PipelineKey::Default, StageKind::Fragment),
        shader(PipelineKey::Alternate, StageKind::Fragment),
    ]
}

fn renderer_of(width: u32, height: u32) -> FrameRenderer {
    FrameRenderer::new(Negotiation::Granted { preferred_format: FORMAT }, width, height, &shaders(), 72)
        .unwrap()
}

fn drawn(result: Result<FrameOutcome, RenderError>) -> FramePlan {
    match result {
        Ok(FrameOutcome::Drawn(plan)) => plan,
        other => panic!("no frame was drawn: {:?}", other),
    }
}

#[test]
fn new_sets_up_surface_pipelines_and_buffer() {
    let renderer = renderer_of(800, 600);
    assert_eq!(renderer.phase(), Phase::Idle);
    assert!(!renderer.is_halted());
    assert_eq!(renderer.context().preferred_format(), FORMAT);
    assert_eq!(renderer.surface().descriptor(), SurfaceDescriptor::new(800, 600, FORMAT));
    assert!(renderer.surface().has_chain());
    assert_eq!(renderer.vertex_buffer().vertex_count(), 3);
    assert_eq!(renderer.vertex_buffer().byte_len(), 72);
    assert_eq!(renderer.pipelines().get(PipelineKey::Default).target_format, FORMAT);
    assert_eq!(renderer.pipelines().get(PipelineKey::Alternate).target_format, FORMAT);
    assert_eq!(renderer.pipelines().get(PipelineKey::Alternate).vertex_stage, 1);
    assert_eq!(renderer.pipelines().layout().array_stride, 24);
}

#[test]
fn new_fails_without_a_device() {
    assert_eq!(
        FrameRenderer::new(Negotiation::NoAdapter, 800, 600, &shaders(), 72).unwrap_err(),
        BuildError::Device(ContextError::DeviceUnavailable)
    );
    assert_eq!(
        FrameRenderer::new(Negotiation::NoDevice, 800, 600, &Vec::new(), 71).unwrap_err(),
        BuildError::Device(ContextError::DeviceUnavailable)
    );
}

#[test]
fn new_fails_on_missing_or_malformed_shaders() {
    let granted = Negotiation::Granted { preferred_format: FORMAT };
    assert_eq!(
        FrameRenderer::new(granted, 800, 600, &Vec::new(), 72).unwrap_err(),
        BuildError::Shader(ShaderLinkError::MissingVertexStage(PipelineKey::Default))
    );
    let mut binaries = shaders();
    binaries[3].bytes = vec![0x03, 0x02, 0x23, 0x07, 0x00, 0x00];
    assert_eq!(
        FrameRenderer::new(granted, 800, 600, &binaries, 71).unwrap_err(),
        BuildError::Shader(ShaderLinkError::Malformed(3))
    );
}

#[test]
fn new_fails_on_vertex_data_that_is_no_whole_array() {
    let granted = Negotiation::Granted { preferred_format: FORMAT };
    assert_eq!(
        FrameRenderer::new(granted, 800, 600, &shaders(), 73).unwrap_err(),
        BuildError::Vertices(VertexDataError::PartialRecord)
    );
    assert_eq!(
        FrameRenderer::new(granted, 800, 600, &shaders(), 24 * 0x1_0000_0000).unwrap_err(),
        BuildError::Vertices(VertexDataError::TooManyVertices)
    );
}

#[test]
fn one_frame_end_to_end() {
    let mut renderer = renderer_of(800, 600);
    let result = renderer.render_frame(
        Acquisition::Ready,
        PipelineKey::Default,
        RawColor { r: 100_000_000, g: 200_300_000, b: 0 },
    );
    let plan = drawn(result);
    assert_eq!(
        plan,
        FramePlan {
            target: FrameImage { width: 800, height: 600, format: FORMAT },
            clear: ClearColor { r: 0, g: 300_000, b: 0, a: 1_000_000 },
            pipeline: PipelineKey::Default,
            vertex_slot: 0,
            vertices: 3,
            instances: 1,
        }
    );
    let commands = plan.commands();
    assert_eq!(commands[3], Command::Draw { vertices: 3, instances: 1 });
    assert_eq!(commands.iter().filter(|c| matches!(c, Command::Draw { .. })).count(), 1);
    let acquired = Recorder { phase: Phase::Acquired, pass_open: false };
    assert_eq!(acquired.replay(&commands), Some(Recorder { phase: Phase::Idle, pass_open: false }));
    assert_eq!(renderer.phase(), Phase::Idle);
}

#[test]
fn render_reads_pipeline_and_color_from_the_input() {
    let mut renderer = renderer_of(800, 600);
    let mut input = InputState::new();
    input.move_cursor(100_000_000, 200_300_000);
    let plan = drawn(renderer.render(Acquisition::Ready, &input));
    assert_eq!(plan.pipeline, PipelineKey::Default);
    assert_eq!(plan.clear, ClearColor { r: 0, g: 300_000, b: 300_000, a: 1_000_000 });
}

#[test]
fn pipeline_follows_the_toggle_at_render_time() {
    let mut renderer = renderer_of(800, 600);
    let mut input = InputState::new();
    assert_eq!(drawn(renderer.render(Acquisition::Ready, &input)).pipeline, PipelineKey::Default);
    assert_eq!(drawn(renderer.render(Acquisition::Ready, &input)).pipeline, PipelineKey::Default);
    input.toggle_pipeline();
    assert_eq!(drawn(renderer.render(Acquisition::Ready, &input)).pipeline, PipelineKey::Alternate);
    assert_eq!(drawn(renderer.render(Acquisition::Ready, &input)).pipeline, PipelineKey::Alternate);
    input.toggle_pipeline();
    assert_eq!(drawn(renderer.render(Acquisition::Ready, &input)).pipeline, PipelineKey::Default);
    assert_eq!(renderer.pipelines().get(PipelineKey::Default).vertex_stage, 0);
    assert_eq!(renderer.pipelines().get(PipelineKey::Alternate).vertex_stage, 1);
}

#[test]
fn resize_then_render_targets_the_new_size() {
    let mut renderer = renderer_of(800, 600);
    assert_eq!(
        renderer.resize(1280, 720),
        ChainAction::Rebuild(SurfaceDescriptor::new(1280, 720, FORMAT))
    );
    assert_eq!(renderer.resize(1280, 720), ChainAction::Keep);
    let plan = drawn(renderer.render(Acquisition::Ready, &InputState::new()));
    assert_eq!(plan.target, FrameImage { width: 1280, height: 720, format: FORMAT });
}

#[test]
fn lost_chain_rebuilds_once_and_draws_nothing() {
    let mut renderer = renderer_of(800, 600);
    let result = renderer.render(Acquisition::Failed(Status::Lost), &InputState::new());
    assert_eq!(
        result,
        Ok(FrameOutcome::Deferred(ChainAction::Rebuild(SurfaceDescriptor::new(800, 600, FORMAT))))
    );
    assert_eq!(renderer.phase(), Phase::Idle);
    assert!(renderer.surface().has_chain());
    assert_eq!(renderer.resize(800, 600), ChainAction::Keep);
    let plan = drawn(renderer.render(Acquisition::Ready, &InputState::new()));
    assert_eq!(plan.target, FrameImage { width: 800, height: 600, format: FORMAT });
}

#[test]
fn lost_chain_after_resize_rebuilds_with_the_resized_descriptor() {
    let mut renderer = renderer_of(800, 600);
    renderer.resize(640, 480);
    assert_eq!(
        renderer.render(Acquisition::Failed(Status::Lost), &InputState::new()),
        Ok(FrameOutcome::Deferred(ChainAction::Rebuild(SurfaceDescriptor::new(640, 480, FORMAT))))
    );
}

#[test]
fn other_failures_skip_the_frame() {
    let mut renderer = renderer_of(800, 600);
    assert_eq!(
        renderer.render(Acquisition::Failed(Status::Other(Detail::Timeout)), &InputState::new()),
        Ok(FrameOutcome::Skipped(Detail::Timeout))
    );
    assert_eq!(
        renderer.render(Acquisition::Failed(Status::Other(Detail::Outdated)), &InputState::new()),
        Ok(FrameOutcome::Skipped(Detail::Outdated))
    );
    assert_eq!(renderer.phase(), Phase::Idle);
    assert!(renderer.surface().has_chain());
    assert!(matches!(
        renderer.render(Acquisition::Ready, &InputState::new()),
        Ok(FrameOutcome::Drawn(_))
    ));
}

#[test]
fn out_of_memory_stops_the_renderer_for_good() {
    let mut renderer = renderer_of(800, 600);
    let fatal = Err(RenderError::Fatal(FatalCause::OutOfMemory));
    assert_eq!(
        renderer.render(Acquisition::Failed(Status::OutOfMemory), &InputState::new()),
        fatal
    );
    assert_eq!(renderer.phase(), Phase::Fatal(FatalCause::OutOfMemory));
    assert!(renderer.is_halted());
    assert_eq!(renderer.render(Acquisition::Ready, &InputState::new()), fatal);
    assert_eq!(renderer.render(Acquisition::Failed(Status::Lost), &InputState::new()), fatal);
    assert_eq!(renderer.resize(1, 1), ChainAction::Keep);
    assert_eq!(renderer.surface().descriptor(), SurfaceDescriptor::new(800, 600, FORMAT));
    renderer.device_lost();
    assert_eq!(renderer.phase(), Phase::Fatal(FatalCause::OutOfMemory));
}

#[test]
fn device_loss_stops_the_renderer() {
    let mut renderer = renderer_of(800, 600);
    renderer.device_lost();
    assert_eq!(renderer.phase(), Phase::Fatal(FatalCause::DeviceLost));
    assert_eq!(
        renderer.render(Acquisition::Ready, &InputState::new()),
        Err(RenderError::Fatal(FatalCause::DeviceLost))
    );
}

#[test]
fn empty_window_draws_nothing_until_it_has_a_size() {
    let mut renderer = renderer_of(0, 0);
    assert!(!renderer.surface().has_chain());
    assert_eq!(
        renderer.render(Acquisition::Ready, &InputState::new()),
        Ok(FrameOutcome::Deferred(ChainAction::Keep))
    );
    assert_eq!(
        renderer.resize(300, 200),
        ChainAction::Rebuild(SurfaceDescriptor::new(300, 200, FORMAT))
    );
    let plan = drawn(renderer.render(Acquisition::Ready, &InputState::new()));
    assert_eq!((plan.target.width, plan.target.height), (300, 200));
}

#[test]
fn update_and_input_change_nothing() {
    let mut renderer = renderer_of(800, 600);
    renderer.update();
    assert!(!renderer.input(&render_core::event::InputEvent::CloseRequested));
    assert!(!renderer.input(&render_core::event::InputEvent::Resized { width: 1, height: 1 }));
    assert_eq!(renderer.phase(), Phase::Idle);
    assert_eq!(renderer.surface().descriptor(), SurfaceDescriptor::new(800, 600, FORMAT));
}
