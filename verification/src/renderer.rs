//! The frame renderer: one frame from acquisition to presentation, recovery
//! from a lost chain, and the end of rendering after a fatal failure.

use vstd::prelude::*;
use crate::color::{ClearColor, RawColor};
use crate::context::{ContextError, GraphicsContext, Negotiation};
use crate::event::InputEvent;
use crate::frame::{step, FatalCause, FrameEvent, FramePlan, Phase};
use crate::input::InputState;
use crate::pipeline::{
    linked,
    selected,
    shader_fault,
    Pipeline,
    PipelineKey,
    PipelineSet,
    ShaderBinary,
    ShaderLinkError,
};
use crate::surface::{
    Acquisition,
    ChainAction,
    Detail,
    FrameImage,
    PixelFormat,
    PresentMode,
    PresentationSurface,
    Status,
    SurfaceDescriptor,
    SurfaceState,
};
use crate::vertex::{
    position_color_attributes,
    record_count,
    StepMode,
    VertexBuffer,
    VertexDataError,
    VertexLayout,
};

verus! {

/// How a call of `render` ended that did not stop the renderer.
#[derive(Clone, Copy, Debug, PartialEq, Eq, Structural)]
pub enum FrameOutcome {
    /// An image was acquired: the frame is to be recorded, submitted and
    /// presented as the plan says.
    Drawn(FramePlan),
    /// The chain was lost: nothing is drawn, and the chain is to be rebuilt as
    /// the action says before the next frame.
    Deferred(ChainAction),
    /// The acquisition failed for this frame only: nothing is drawn, the chain
    /// stays.
    Skipped(Detail),
}

/// The one error that `render` lets through to its caller.
#[derive(Clone, Copy, Debug, PartialEq, Eq, Structural)]
pub enum RenderError {
    /// Rendering stopped for good. The caller has to leave the render loop.
    Fatal(FatalCause),
}

/// Why a renderer could not be set up.
#[derive(Clone, Copy, Debug, PartialEq, Eq, Structural)]
pub enum BuildError {
    /// No device was to be had.
    Device(ContextError),
    /// A pipeline could not be built.
    Shader(ShaderLinkError),
    /// The vertex data is no whole array of records.
    Vertices(VertexDataError),
}

/// The state of a renderer as contracts see it.
pub struct RendererState {
    /// The pixel format that the context's adapter prefers.
    pub format: PixelFormat,
    pub surface: SurfaceState,
    pub pipelines: PipelineSet,
    pub vertex_buffer: VertexBuffer,
    pub phase: Phase,
}

impl RendererState {
    /// Between calls a renderer is idle or stopped, its chain fits its
    /// descriptor, and surface and pipelines agree on the context's format.
    pub open spec fn coherent(self) -> bool {
        &&& self.phase is Idle || self.phase is Fatal
        &&& self.surface.consistent()
        &&& self.surface.descriptor.format == self.format
        &&& forall|key: PipelineKey| (#[trigger] self.pipelines.pipeline(key)).target_format
            == self.format
    }

    /// What a resize asks of the caller. A stopped renderer asks for nothing
    /// any more.
    pub open spec fn resize_action(self, width: u32, height: u32) -> ChainAction {
        if self.phase is Fatal {
            ChainAction::Keep
        } else {
            self.surface.resize_action(width, height)
        }
    }

    /// The renderer after a resize.
    pub open spec fn resized(self, width: u32, height: u32) -> RendererState {
        if self.phase is Fatal {
            self
        } else {
            RendererState { surface: self.surface.resized(width, height), ..self }
        }
    }

    /// The plan of a frame that targets the given image.
    pub open spec fn plan(self, image: FrameImage, active: PipelineKey, raw: RawColor) -> FramePlan {
        FramePlan {
            target: image,
            clear: ClearColor::of(raw),
            pipeline: active,
            vertex_slot: 0,
            vertices: self.vertex_buffer.count(),
            instances: 1,
        }
    }

    /// How a frame ends, given the platform's report on the acquisition.
    pub open spec fn frame(self, reported: Acquisition, active: PipelineKey, raw: RawColor)
        -> Result<FrameOutcome, RenderError> {
        match self.phase {
            Phase::Fatal(cause) => Err(RenderError::Fatal(cause)),
            _ => match self.surface.acquisition(reported) {
                Ok(image) => Ok(FrameOutcome::Drawn(self.plan(image, active, raw))),
                Err(Status::Lost) => Ok(
                    FrameOutcome::Deferred(
                        self.surface.after_acquisition(reported).resize_action(
                            self.surface.descriptor.width,
                            self.surface.descriptor.height,
                        ),
                    ),
                ),
                Err(Status::OutOfMemory) => Err(RenderError::Fatal(FatalCause::OutOfMemory)),
                Err(Status::Other(detail)) => Ok(FrameOutcome::Skipped(detail)),
            },
        }
    }

    /// The renderer after a frame. A lost chain is rebuilt against the
    /// descriptor that the surface has; running out of memory stops the
    /// renderer; nothing else leaves a trace.
    pub open spec fn after_frame(self, reported: Acquisition) -> RendererState {
        match self.phase {
            Phase::Fatal(_) => self,
            _ => match self.surface.acquisition(reported) {
                Err(Status::Lost) => RendererState {
                    surface: self.surface.after_acquisition(reported).resized(
                        self.surface.descriptor.width,
                        self.surface.descriptor.height,
                    ),
                    ..self
                },
                Err(Status::OutOfMemory) => RendererState {
                    phase: Phase::Fatal(FatalCause::OutOfMemory),
                    ..self
                },
                _ => self,
            },
        }
    }
}

/// Why no renderer can be set up, if anything stands in the way: the device
/// comes first, then the pipelines, then the vertex data, which has to be a
/// whole array of position-and-colour records.
pub open spec fn startup_fault(
    negotiation: Negotiation,
    binaries: Seq<ShaderBinary>,
    vertex_bytes: u64,
) -> Option<BuildError> {
    match negotiation {
        Negotiation::Granted { preferred_format } => match shader_fault(binaries, preferred_format) {
            Some(fault) => Some(BuildError::Shader(fault)),
            None => match record_count(vertex_bytes, 24) {
                Err(fault) => Some(BuildError::Vertices(fault)),
                Ok(_) => None,
            },
        },
        _ => Some(BuildError::Device(ContextError::DeviceUnavailable)),
    }
}

/// A renderer: the context, the surface bound to it, the pipelines and the
/// vertex buffer, and where rendering stands.
#[derive(Debug)]
pub struct FrameRenderer {
    context: GraphicsContext,
    surface: PresentationSurface,
    pipelines: PipelineSet,
    vertex_buffer: VertexBuffer,
    phase: Phase,
}

impl View for FrameRenderer {
    type V = RendererState;

    closed spec fn view(&self) -> RendererState {
        RendererState {
            format: self.context.format(),
            surface: self.surface@,
            pipelines: self.pipelines,
            vertex_buffer: self.vertex_buffer,
            phase: self.phase,
        }
    }
}

impl FrameRenderer {
    #[verifier::type_invariant]
    spec fn inv(self) -> bool {
        self@.coherent()
    }

    /// Sets a renderer up from what the platform answered and what was built
    /// ahead of time: a surface of the window's size in the format that the
    /// adapter prefers, presented in display order; both pipelines, reading
    /// position-and-colour records; and the vertex buffer, of `vertex_bytes`
    /// bytes.
    pub fn new(
        negotiation: Negotiation,
        width: u32,
        height: u32,
        binaries: &Vec<ShaderBinary>,
        vertex_bytes: u64,
    ) -> (result: Result<FrameRenderer, BuildError>)
        ensures
            match startup_fault(negotiation, binaries@, vertex_bytes) {
                Some(fault) => result == Err::<FrameRenderer, BuildError>(fault),
                None => {
                    &&& result is Ok
                    &&& negotiation matches Negotiation::Granted { preferred_format }
                    &&& result->Ok_0@.format == preferred_format
                    &&& result->Ok_0@.surface == SurfaceState {
                        descriptor: SurfaceDescriptor {
                            width,
                            height,
                            format: preferred_format,
                            present_mode: PresentMode::Fifo,
                        },
                        chain: if width > 0 && height > 0 {
                            Some(
                                SurfaceDescriptor {
                                    width,
                                    height,
                                    format: preferred_format,
                                    present_mode: PresentMode::Fifo,
                                },
                            )
                        } else {
                            None
                        },
                    }
                    &&& forall|key: PipelineKey| #[trigger]
                        linked(binaries@, key, preferred_format) == Ok::<Pipeline, ShaderLinkError>(
                            result->Ok_0@.pipelines.pipeline(key),
                        )
                    &&& result->Ok_0@.pipelines.vertex_layout().array_stride == 24
                    &&& result->Ok_0@.pipelines.vertex_layout().step_mode == StepMode::Vertex
                    &&& result->Ok_0@.pipelines.vertex_layout().attributes@
                        == position_color_attributes()
                    &&& record_count(vertex_bytes, 24) == Ok::<u32, VertexDataError>(
                        result->Ok_0@.vertex_buffer.count(),
                    )
                    &&& result->Ok_0@.vertex_buffer.len() == vertex_bytes
                    &&& result->Ok_0@.phase == Phase::Idle
                    &&& result->Ok_0@.coherent()
                },
            },
    {
        let context = match GraphicsContext::initialize(negotiation) {
            Err(fault) => {
                return Err(BuildError::Device(fault));
            },
            Ok(context) => context,
        };
        let format = context.preferred_format();
        let surface = PresentationSurface::create(
            &context,
            SurfaceDescriptor::new(width, height, format),
        );
        let layout = VertexLayout::desc();
        let pipelines = match PipelineSet::build(&context, binaries, layout) {
            Err(fault) => {
                return Err(BuildError::Shader(fault));
            },
            Ok(pipelines) => pipelines,
        };
        let vertex_buffer = match VertexBuffer::upload(vertex_bytes, pipelines.layout()) {
            Err(fault) => {
                return Err(BuildError::Vertices(fault));
            },
            Ok(buffer) => buffer,
        };
        proof {
            assert forall|key: PipelineKey|
                (#[trigger] pipelines.pipeline(key)).target_format == format by {
                assert(linked(binaries@, key, format) == Ok::<Pipeline, ShaderLinkError>(
                    pipelines.pipeline(key),
                ));
            }
        }
        Ok(FrameRenderer { context, surface, pipelines, vertex_buffer, phase: Phase::Idle })
    }

    /// Takes a new window size, as the surface does. A stopped renderer
    /// ignores it.
    pub fn resize(&mut self, new_width: u32, new_height: u32) -> (action: ChainAction)
        ensures
            final(self)@ == old(self)@.resized(new_width, new_height),
            action == old(self)@.resize_action(new_width, new_height),
            final(self)@.coherent(),
    {
        proof {
            use_type_invariant(&*self);
        }
        match self.phase {
            Phase::Fatal(_) => ChainAction::Keep,
            _ => {
                let mut surface = self.surface;
                let action = surface.resize(new_width, new_height);
                self.surface = surface;
                action
            },
        }
    }

    /// Offers the renderer a window event, and tells whether it consumed the
    /// event. It consumes none, and no event changes it.
    pub fn input(&mut self, _event: &InputEvent) -> (consumed: bool)
        ensures
            !consumed,
            final(self)@ == old(self)@,
    {
        false
    }

    /// Nothing moves between frames: an update leaves the renderer as it is.
    pub fn update(&mut self)
        ensures
            final(self)@ == old(self)@,
    {
    }

    /// Renders one frame for the given input state: with the pipeline that the
    /// toggle selects, cleared to the colour that the pointer stands for.
    pub fn render(&mut self, reported: Acquisition, input: &InputState) -> (result: Result<
        FrameOutcome,
        RenderError,
    >)
        ensures
            result == old(self)@.frame(
                reported,
                selected(input.alternate_pipeline),
                input.raw_color(),
            ),
            final(self)@ == old(self)@.after_frame(reported),
            final(self)@.coherent(),
    {
        self.render_frame(reported, input.active_pipeline(), input.clear_input())
    }

    /// Renders one frame, given the platform's report on the chain's next
    /// image.
    ///
    /// With an image at hand the frame is planned: a render pass on that image,
    /// cleared to the wrapped colour; the active pipeline; the vertex buffer at
    /// slot 0; one instance of all its vertices. A lost chain is rebuilt at
    /// once against the descriptor that the surface has, and the frame is put
    /// off. Out of memory, the renderer stops for good. Any other failure skips
    /// the frame. A renderer that stopped stays stopped, whatever is reported.
    pub fn render_frame(&mut self, reported: Acquisition, active: PipelineKey, raw: RawColor) -> (result:
        Result<FrameOutcome, RenderError>)
        ensures
            result == old(self)@.frame(reported, active, raw),
            final(self)@ == old(self)@.after_frame(reported),
            final(self)@.coherent(),
    {
        proof {
            use_type_invariant(&*self);
        }
        if let Phase::Fatal(cause) = self.phase {
            return Err(RenderError::Fatal(cause));
        }
        let mut surface = self.surface;
        match surface.acquire_next_image(reported) {
            Ok(image) => {
                let acquired = self.phase.advance(FrameEvent::Acquire(Acquisition::Ready));
                let clear = ClearColor::wrap(raw);
                let recording = acquired.advance(FrameEvent::BeginPass);
                let plan = FramePlan {
                    target: image,
                    clear,
                    pipeline: active,
                    vertex_slot: 0,
                    vertices: self.vertex_buffer.vertex_count(),
                    instances: 1,
                };
                let submitted = recording.advance(FrameEvent::Submit);
                self.phase = submitted.advance(FrameEvent::Release);
                Ok(FrameOutcome::Drawn(plan))
            },
            Err(Status::Lost) => {
                let descriptor = surface.descriptor();
                let action = surface.resize(descriptor.width, descriptor.height);
                self.surface = surface;
                Ok(FrameOutcome::Deferred(action))
            },
            Err(Status::OutOfMemory) => {
                self.phase = self.phase.advance(
                    FrameEvent::Acquire(Acquisition::Failed(Status::OutOfMemory)),
                );
                Err(RenderError::Fatal(FatalCause::OutOfMemory))
            },
            Err(Status::Other(detail)) => Ok(FrameOutcome::Skipped(detail)),
        }
    }

    /// Takes note that the device is gone. Rendering stops for good, unless it
    /// had stopped before.
    pub fn device_lost(&mut self)
        ensures
            final(self)@ == (RendererState {
                phase: step(old(self)@.phase, FrameEvent::DeviceLost),
                ..old(self)@
            }),
            final(self)@.phase is Fatal,
            final(self)@.coherent(),
    {
        proof {
            use_type_invariant(&*self);
        }
        self.phase = self.phase.advance(FrameEvent::DeviceLost);
    }

    /// Where rendering stands.
    pub fn phase(&self) -> (phase: Phase)
        ensures
            phase == self@.phase,
            phase is Idle || phase is Fatal,
    {
        proof {
            use_type_invariant(self);
        }
        self.phase
    }

    /// Whether rendering stopped for good: no frame may be started any more.
    pub fn is_halted(&self) -> (yes: bool)
        ensures
            yes == self@.phase is Fatal,
    {
        match self.phase {
            Phase::Fatal(_) => true,
            _ => false,
        }
    }

    /// The surface as it stands.
    pub fn surface(&self) -> (surface: PresentationSurface)
        ensures
            surface@ == self@.surface,
    {
        self.surface
    }

    /// The pipelines.
    pub fn pipelines(&self) -> (pipelines: &PipelineSet)
        ensures
            *pipelines == self@.pipelines,
    {
        &self.pipelines
    }

    /// The vertex buffer.
    pub fn vertex_buffer(&self) -> (buffer: VertexBuffer)
        ensures
            buffer == self@.vertex_buffer,
    {
        self.vertex_buffer
    }

    /// The context that the renderer was set up with.
    pub fn context(&self) -> (context: &GraphicsContext)
        ensures
            context.format() == self@.format,
    {
        &self.context
    }
}

/// The renderers that a sequence of frames leads through end in this one.
pub open spec fn after_frames(state: RendererState, reports: Seq<Acquisition>) -> RendererState
    decreases reports.len(),
{
    if reports.len() == 0 {
        state
    } else {
        after_frames(state.after_frame(reports[0]), reports.drop_first())
    }
}

/// After a resize to a size that is not empty, the next frame that gets an
/// image targets one of exactly that size.
pub proof fn lemma_resized_frame_targets_new_size(
    state: RendererState,
    width: u32,
    height: u32,
    active: PipelineKey,
    raw: RawColor,
)
    requires
        state.coherent(),
        state.phase is Idle,
        width > 0,
        height > 0,
    ensures
        state.resized(width, height).frame(Acquisition::Ready, active, raw) matches Ok(
            FrameOutcome::Drawn(plan),
        ) && plan.target.width == width && plan.target.height == height,
{
}

/// The pipeline of a frame is a function of the toggle alone, read when the
/// frame is rendered. Whatever came before, a frame that is drawn binds the
/// pipeline that the toggle selects at that moment: two frames in a row bind
/// the same pipeline where the toggle is unchanged between them, and
/// different ones where it was flipped. The renderer keeps no memory of the
/// toggle, and rendering leaves the pipelines themselves as they were.
pub proof fn lemma_pipeline_follows_toggle(
    state: RendererState,
    first: InputState,
    first_report: Acquisition,
    second: InputState,
    second_report: Acquisition,
)
    ensures
        state.after_frame(first_report).pipelines == state.pipelines,
        ({
            let one = state.frame(
                first_report,
                selected(first.alternate_pipeline),
                first.raw_color(),
            );
            let two = state.after_frame(first_report).frame(
                second_report,
                selected(second.alternate_pipeline),
                second.raw_color(),
            );
            &&& one matches Ok(FrameOutcome::Drawn(plan)) ==> plan.pipeline == selected(
                first.alternate_pipeline,
            )
            &&& two matches Ok(FrameOutcome::Drawn(plan)) ==> plan.pipeline == selected(
                second.alternate_pipeline,
            )
            &&& one matches Ok(FrameOutcome::Drawn(plan_one)) ==> (two matches Ok(
                FrameOutcome::Drawn(plan_two),
            ) ==> (plan_one.pipeline == plan_two.pipeline <==> first.alternate_pipeline
                == second.alternate_pipeline))
        }),
{
}

/// Pipelines and vertex buffer are made once: no frame and no resize changes
/// them, nor the format that surface and pipelines agree on.
pub proof fn lemma_built_parts_never_change(
    state: RendererState,
    reported: Acquisition,
    width: u32,
    height: u32,
)
    requires
        state.coherent(),
    ensures
        state.after_frame(reported).pipelines == state.pipelines,
        state.after_frame(reported).vertex_buffer == state.vertex_buffer,
        state.after_frame(reported).coherent(),
        state.resized(width, height).pipelines == state.pipelines,
        state.resized(width, height).vertex_buffer == state.vertex_buffer,
        state.resized(width, height).coherent(),
        state.after_frame(reported).surface.descriptor == state.surface.descriptor,
{
}

/// A chain reported lost costs exactly one rebuild, against the descriptor
/// that was set before, and no draw: the frame is put off, and the renderer is
/// afterwards what it was.
pub proof fn lemma_lost_chain_defers_frame(state: RendererState, active: PipelineKey, raw: RawColor)
    requires
        state.coherent(),
        state.phase is Idle,
        state.surface.chain is Some,
    ensures
        state.frame(Acquisition::Failed(Status::Lost), active, raw) == Ok::<
            FrameOutcome,
            RenderError,
        >(FrameOutcome::Deferred(ChainAction::Rebuild(state.surface.descriptor))),
        state.after_frame(Acquisition::Failed(Status::Lost)) == state,
{
}

/// Out of memory, the frame ends in `Fatal` and the renderer stops.
pub proof fn lemma_out_of_memory_is_fatal(state: RendererState, active: PipelineKey, raw: RawColor)
    requires
        state.coherent(),
        state.phase is Idle,
        state.surface.chain is Some,
    ensures
        state.frame(Acquisition::Failed(Status::OutOfMemory), active, raw) == Err::<
            FrameOutcome,
            RenderError,
        >(RenderError::Fatal(FatalCause::OutOfMemory)),
        state.after_frame(Acquisition::Failed(Status::OutOfMemory)).phase == Phase::Fatal(
            FatalCause::OutOfMemory,
        ),
{
}

/// A renderer that stopped issues nothing any more. Every later frame ends in
/// the same `Fatal`, whatever the platform reports, no resize asks for a
/// rebuild, and however many frames are tried, the renderer stays as it is.
pub proof fn lemma_stopped_renderer_stays_stopped(state: RendererState, reports: Seq<Acquisition>)
    requires
        state.phase is Fatal,
    ensures
        forall|reported: Acquisition, active: PipelineKey, raw: RawColor| #[trigger]
            state.frame(reported, active, raw) == Err::<FrameOutcome, RenderError>(
                RenderError::Fatal(state.phase->Fatal_0),
            ),
        forall|width: u32, height: u32| #[trigger]
            state.resize_action(width, height) == ChainAction::Keep,
        forall|width: u32, height: u32| #[trigger] state.resized(width, height) == state,
        after_frames(state, reports) == state,
    decreases reports.len(),
{
    if reports.len() > 0 {
        lemma_stopped_renderer_stays_stopped(state, reports.drop_first());
    }
}

} // verus!
