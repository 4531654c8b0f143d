//! One frame as a state machine: the phases it passes through, the commands it
//! records, and the order in which those commands may come.

use vstd::prelude::*;
use crate::color::ClearColor;
use crate::pipeline::PipelineKey;
use crate::surface::{Acquisition, FrameImage, Status};

verus! {

/// Why rendering stopped for good.
#[derive(Clone, Copy, Debug, PartialEq, Eq, Structural)]
pub enum FatalCause {
    /// Memory ran out while an image was acquired.
    OutOfMemory,
    /// The device is gone. There is no way to make another.
    DeviceLost,
}

/// Where a renderer stands within a frame.
#[derive(Clone, Copy, Debug, PartialEq, Eq, Structural)]
pub enum Phase {
    /// Between frames.
    Idle,
    /// An image of the chain is held.
    Acquired,
    /// A render pass on the image was begun.
    Recording,
    /// The commands were handed to the queue.
    Submitted,
    /// Rendering stopped for good.
    Fatal(FatalCause),
}

/// What moves a renderer from one phase to the next.
#[derive(Clone, Copy, Debug, PartialEq, Eq, Structural)]
pub enum FrameEvent {
    /// The platform reported on the chain's next image.
    Acquire(Acquisition),
    /// A render pass on the acquired image was begun.
    BeginPass,
    /// The recorded commands were handed to the queue.
    Submit,
    /// The image was released, and with that presented.
    Release,
    /// The device is gone.
    DeviceLost,
}

/// The phase that follows an event. An acquisition that fails leaves the
/// renderer idle, or stops it for good when memory ran out; it never gets
/// part of the way into a frame. The loss of the device stops the renderer
/// wherever it stands. An event that does not belong to the phase changes
/// nothing, and nothing leads out of `Fatal`.
pub open spec fn step(phase: Phase, event: FrameEvent) -> Phase {
    match (phase, event) {
        (Phase::Fatal(_), _) => phase,
        (_, FrameEvent::DeviceLost) => Phase::Fatal(FatalCause::DeviceLost),
        (Phase::Idle, FrameEvent::Acquire(Acquisition::Ready)) => Phase::Acquired,
        (Phase::Idle, FrameEvent::Acquire(Acquisition::Failed(Status::OutOfMemory))) => Phase::Fatal(
            FatalCause::OutOfMemory,
        ),
        (Phase::Acquired, FrameEvent::BeginPass) => Phase::Recording,
        (Phase::Recording, FrameEvent::Submit) => Phase::Submitted,
        (Phase::Submitted, FrameEvent::Release) => Phase::Idle,
        _ => phase,
    }
}

impl Phase {
    /// The phase that follows an event.
    pub fn advance(self, event: FrameEvent) -> (next: Phase)
        ensures
            next == step(self, event),
    {
        match (self, event) {
            (Phase::Fatal(_), _) => self,
            (_, FrameEvent::DeviceLost) => Phase::Fatal(FatalCause::DeviceLost),
            (Phase::Idle, FrameEvent::Acquire(Acquisition::Ready)) => Phase::Acquired,
            (Phase::Idle, FrameEvent::Acquire(Acquisition::Failed(Status::OutOfMemory))) => {
                Phase::Fatal(FatalCause::OutOfMemory)
            },
            (Phase::Acquired, FrameEvent::BeginPass) => Phase::Recording,
            (Phase::Recording, FrameEvent::Submit) => Phase::Submitted,
            (Phase::Submitted, FrameEvent::Release) => Phase::Idle,
            _ => self,
        }
    }
}

/// What one frame draws: everything that the commands of the frame depend on.
#[derive(Clone, Copy, Debug, PartialEq, Eq, Structural)]
pub struct FramePlan {
    /// The image that the render pass targets.
    pub target: FrameImage,
    /// The colour that the pass clears the image to.
    pub clear: ClearColor,
    /// The pipeline that is bound.
    pub pipeline: PipelineKey,
    /// The slot that the vertex buffer is bound at.
    pub vertex_slot: u32,
    /// The draw call covers the vertices `0..vertices`,
    pub vertices: u32,
    /// and the instances `0..instances`.
    pub instances: u32,
}

/// One command of a frame, as the device takes it.
#[derive(Clone, Copy, Debug, PartialEq, Eq, Structural)]
pub enum Command {
    /// Begin a render pass on the image, clearing it to the colour and keeping
    /// what is drawn.
    BeginRenderPass { target: FrameImage, clear: ClearColor },
    /// Bind a pipeline.
    SetPipeline(PipelineKey),
    /// Bind the whole vertex buffer at a slot.
    SetVertexBuffer { slot: u32 },
    /// Draw the vertices `0..vertices` for the instances `0..instances`.
    Draw { vertices: u32, instances: u32 },
    /// End the render pass.
    EndRenderPass,
    /// Finish recording and hand the commands to the queue.
    Submit,
    /// Release the image, which presents it.
    Present,
}

impl FramePlan {
    /// The commands of the frame, in the order in which they are issued.
    pub open spec fn command_list(self) -> Seq<Command> {
        seq![
            Command::BeginRenderPass { target: self.target, clear: self.clear },
            Command::SetPipeline(self.pipeline),
            Command::SetVertexBuffer { slot: self.vertex_slot },
            Command::Draw { vertices: self.vertices, instances: self.instances },
            Command::EndRenderPass,
            Command::Submit,
            Command::Present,
        ]
    }

    /// The commands of the frame, in the order in which they are issued.
    pub fn commands(&self) -> (list: Vec<Command>)
        ensures
            list@ == self.command_list(),
    {
        let mut list: Vec<Command> = Vec::new();
        list.push(Command::BeginRenderPass { target: self.target, clear: self.clear });
        list.push(Command::SetPipeline(self.pipeline));
        list.push(Command::SetVertexBuffer { slot: self.vertex_slot });
        list.push(Command::Draw { vertices: self.vertices, instances: self.instances });
        list.push(Command::EndRenderPass);
        list.push(Command::Submit);
        list.push(Command::Present);
        assert(list@ =~= self.command_list());
        list
    }
}

/// Where the recording of a frame stands: the phase, and whether a render pass
/// is open.
#[derive(Clone, Copy, Debug, PartialEq, Eq, Structural)]
pub struct Recorder {
    pub phase: Phase,
    pub pass_open: bool,
}

/// The recorder after a command, or `None` where the command may not come at
/// this point. A pass is begun only on a freshly acquired image; pipeline,
/// buffer and draw belong inside an open pass; the pass has to be ended before
/// the commands are submitted; and the image is released only after that.
pub open spec fn applied(recorder: Recorder, command: Command) -> Option<Recorder> {
    match command {
        Command::BeginRenderPass { .. } => if recorder.phase == Phase::Acquired {
            Some(Recorder { phase: step(recorder.phase, FrameEvent::BeginPass), pass_open: true })
        } else {
            None
        },
        Command::SetPipeline(_) | Command::SetVertexBuffer { .. } | Command::Draw { .. } => if recorder.phase
            == Phase::Recording && recorder.pass_open {
            Some(recorder)
        } else {
            None
        },
        Command::EndRenderPass => if recorder.phase == Phase::Recording && recorder.pass_open {
            Some(Recorder { phase: recorder.phase, pass_open: false })
        } else {
            None
        },
        Command::Submit => if recorder.phase == Phase::Recording && !recorder.pass_open {
            Some(Recorder { phase: step(recorder.phase, FrameEvent::Submit), pass_open: false })
        } else {
            None
        },
        Command::Present => if recorder.phase == Phase::Submitted {
            Some(Recorder { phase: step(recorder.phase, FrameEvent::Release), pass_open: false })
        } else {
            None
        },
    }
}

/// The recorder after the commands from index `from` on, or `None` where one
/// of them may not come where it stands.
pub open spec fn replayed_from(recorder: Recorder, commands: Seq<Command>, from: int) -> Option<
    Recorder,
>
    decreases commands.len() - from,
{
    if from < 0 || from >= commands.len() {
        Some(recorder)
    } else {
        match applied(recorder, commands[from]) {
            None => None,
            Some(next) => replayed_from(next, commands, from + 1),
        }
    }
}

/// The recorder after all the commands.
pub open spec fn replayed(recorder: Recorder, commands: Seq<Command>) -> Option<Recorder> {
    replayed_from(recorder, commands, 0)
}

impl Recorder {
    /// The recorder that holds a freshly acquired image.
    pub open spec fn acquired() -> Recorder {
        Recorder { phase: Phase::Acquired, pass_open: false }
    }

    /// The recorder between frames.
    pub open spec fn idle() -> Recorder {
        Recorder { phase: Phase::Idle, pass_open: false }
    }

    /// Takes one command, or refuses it.
    pub fn apply(self, command: Command) -> (next: Option<Recorder>)
        ensures
            next == applied(self, command),
    {
        match command {
            Command::BeginRenderPass { .. } => match self.phase {
                Phase::Acquired => Some(
                    Recorder { phase: self.phase.advance(FrameEvent::BeginPass), pass_open: true },
                ),
                _ => None,
            },
            Command::SetPipeline(_) | Command::SetVertexBuffer { .. } | Command::Draw { .. } => match self.phase {
                Phase::Recording => if self.pass_open {
                    Some(self)
                } else {
                    None
                },
                _ => None,
            },
            Command::EndRenderPass => match self.phase {
                Phase::Recording => if self.pass_open {
                    Some(Recorder { phase: self.phase, pass_open: false })
                } else {
                    None
                },
                _ => None,
            },
            Command::Submit => match self.phase {
                Phase::Recording => if !self.pass_open {
                    Some(
                        Recorder { phase: self.phase.advance(FrameEvent::Submit), pass_open: false },
                    )
                } else {
                    None
                },
                _ => None,
            },
            Command::Present => match self.phase {
                Phase::Submitted => Some(
                    Recorder { phase: self.phase.advance(FrameEvent::Release), pass_open: false },
                ),
                _ => None,
            },
        }
    }

    /// Takes the commands one after the other, and stops at the first that may
    /// not come where it stands.
    pub fn replay(self, commands: &Vec<Command>) -> (end: Option<Recorder>)
        ensures
            end == replayed(self, commands@),
    {
        let n = commands.len();
        let mut current = self;
        let mut i: usize = 0;
        while i < n
            invariant
                n == commands.len(),
                i <= n,
                replayed(self, commands@) == replayed_from(current, commands@, i as int),
            decreases n - i,
        {
            match current.apply(commands[i]) {
                None => {
                    return None;
                },
                Some(next) => {
                    current = next;
                },
            }
            i += 1;
        }
        Some(current)
    }
}

/// The commands of a frame walk the whole machine: begun on a freshly acquired
/// image, they end between frames, with the render pass opened and closed
/// again before the commands are submitted, and the image released last.
pub proof fn lemma_frame_commands_are_scoped(plan: FramePlan)
    ensures
        replayed(Recorder::acquired(), plan.command_list()) == Some(Recorder::idle()),
{
    reveal_with_fuel(replayed_from, 8);
}

/// A whole frame leads from idle back to idle, through every phase in turn.
pub proof fn lemma_frame_returns_to_idle()
    ensures
        step(Phase::Idle, FrameEvent::Acquire(Acquisition::Ready)) == Phase::Acquired,
        step(Phase::Acquired, FrameEvent::BeginPass) == Phase::Recording,
        step(Phase::Recording, FrameEvent::Submit) == Phase::Submitted,
        step(Phase::Submitted, FrameEvent::Release) == Phase::Idle,
{
}

/// An acquisition that fails never gets part of the way into a frame: the
/// renderer stays idle, or stops for good when memory ran out.
pub proof fn lemma_failed_acquisition_never_advances(status: Status)
    ensures
        step(Phase::Idle, FrameEvent::Acquire(Acquisition::Failed(status))) == if status
            == Status::OutOfMemory {
            Phase::Fatal(FatalCause::OutOfMemory)
        } else {
            Phase::Idle
        },
{
}

/// Nothing leads out of `Fatal`.
pub proof fn lemma_fatal_is_final(cause: FatalCause, event: FrameEvent)
    ensures
        step(Phase::Fatal(cause), event) == Phase::Fatal(cause),
{
}

} // verus!
