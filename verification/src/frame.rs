//! One frame: the commands recorded for it and the way it proceeds from the
//! acquisition of an image to its presentation.

use vstd::prelude::*;

verus! {

/// A colour of four channels. A channel is stored as the bit pattern of an
/// IEEE 754 double-precision number.
#[derive(Clone, Copy, Debug, PartialEq, Eq, Structural)]
pub struct Color {
    pub r: u64,
    pub g: u64,
    pub b: u64,
    pub a: u64,
}

impl Default for Color {
    /// Every channel is zero.
    fn default() -> (color: Color)
        ensures
            color == (Color { r: 0, g: 0, b: 0, a: 0 }),
    {
        Color { r: 0, g: 0, b: 0, a: 0 }
    }
}

/// Why no image could be acquired from the surface.
#[derive(Clone, Copy, Debug, PartialEq, Eq, Structural)]
pub enum SurfaceError {
    /// No image became free in time.
    Timeout,
    /// The surface has changed and must be configured again.
    Outdated,
    /// The surface is lost and must be configured again.
    Lost,
    /// There is no memory left for a new image.
    OutOfMemory,
}

/// What a pass does to an attachment before it draws.
#[derive(Clone, Copy, Debug, PartialEq, Eq, Structural)]
pub enum LoadOp {
    Clear(Color),
    Load,
}

/// What a pass does to an attachment before and after it draws.
#[derive(Clone, Copy, Debug, PartialEq, Eq, Structural)]
pub struct Operations {
    pub load: LoadOp,
    /// Whether what was drawn is kept.
    pub store: bool,
}

/// A colour attachment of a pass. Its target is the image acquired for the
/// frame, with nothing to resolve into.
#[derive(Clone, Copy, Debug, PartialEq, Eq, Structural)]
pub struct RenderPassColorAttachment {
    pub ops: Operations,
}

/// The vertices or instances from `start` up to, and not including, `end`.
#[derive(Clone, Copy, Debug, PartialEq, Eq, Structural)]
pub struct DrawRange {
    pub start: u32,
    pub end: u32,
}

/// One command of a render pass.
#[derive(Clone, Copy, Debug, PartialEq, Eq, Structural)]
pub enum RenderCommand {
    /// Binds the pipeline.
    SetPipeline,
    /// Binds the whole vertex buffer of the object at place `object` of the
    /// collection at the input slot `slot`.
    SetVertexBuffer { slot: u32, object: usize },
    /// Draws the vertices and instances of the ranges given.
    Draw { vertices: DrawRange, instances: DrawRange },
}

/// A render pass as it is recorded.
#[derive(Debug, PartialEq, Eq)]
pub struct RenderPass {
    pub label: &'static str,
    pub color_attachments: Vec<RenderPassColorAttachment>,
    /// Whether the pass has a depth and stencil attachment.
    pub depth_stencil_attachment: bool,
    pub commands: Vec<RenderCommand>,
}

/// Everything recorded for one frame.
#[derive(Debug, PartialEq, Eq)]
pub struct Frame {
    pub encoder_label: &'static str,
    pub pass: RenderPass,
}

/// The commands of a frame that draws `objects` objects of `count`
/// vertices in all: the pipeline is bound, then the vertex buffer of every
/// object in order at slot 0, then one draw covers all `count` vertices
/// in a single instance.
pub open spec fn frame_commands(objects: nat, count: u32) -> Seq<RenderCommand> {
    seq![RenderCommand::SetPipeline] + Seq::new(
        objects,
        |i: int| RenderCommand::SetVertexBuffer { slot: 0, object: i as usize },
    ) + seq![
        RenderCommand::Draw {
            vertices: DrawRange { start: 0, end: count },
            instances: DrawRange { start: 0, end: 1 },
        },
    ]
}

impl Frame {
    /// The frame clears the acquired image to `clear`, keeps what it draws,
    /// has no depth or stencil, and draws `objects` objects of `count`
    /// vertices in all.
    pub open spec fn draws(self, clear: Color, objects: nat, count: u32) -> bool {
        &&& self.encoder_label@ == "Command Encoder"@
        &&& self.pass.label@ == "Render Pass"@
        &&& self.pass.color_attachments@ == seq![
            RenderPassColorAttachment {
                ops: Operations { load: LoadOp::Clear(clear), store: true },
            },
        ]
        &&& !self.pass.depth_stencil_attachment
        &&& self.pass.commands@ == frame_commands(objects, count)
    }

    /// Records the frame that clears to `clear` and draws `objects` objects
    /// of `count` vertices in all.
    pub fn record(clear: Color, objects: usize, count: u32) -> (frame: Frame)
        ensures
            frame.draws(clear, objects as nat, count),
    {
        let mut commands: Vec<RenderCommand> = Vec::new();
        commands.push(RenderCommand::SetPipeline);
        let mut i: usize = 0;
        while i < objects
            invariant
                i <= objects,
                commands@ == seq![RenderCommand::SetPipeline] + Seq::new(
                    i as nat,
                    |k: int| RenderCommand::SetVertexBuffer { slot: 0, object: k as usize },
                ),
            decreases objects - i,
        {
            commands.push(RenderCommand::SetVertexBuffer { slot: 0, object: i });
            i += 1;
        }
        commands.push(
            RenderCommand::Draw {
                vertices: DrawRange { start: 0, end: count },
                instances: DrawRange { start: 0, end: 1 },
            },
        );
        assert(commands@ =~= frame_commands(objects as nat, count));
        let color_attachments = vec![
            RenderPassColorAttachment {
                ops: Operations { load: LoadOp::Clear(clear), store: true },
            },
        ];
        assert(color_attachments@ =~= seq![
            RenderPassColorAttachment {
                ops: Operations { load: LoadOp::Clear(clear), store: true },
            },
        ]);
        Frame {
            encoder_label: "Command Encoder",
            pass: RenderPass {
                label: "Render Pass",
                color_attachments,
                depth_stencil_attachment: false,
                commands,
            },
        }
    }
}

/// Where a frame stands.
#[derive(Clone, Copy, Debug, PartialEq, Eq, Structural)]
pub enum FrameState {
    /// Nothing has been asked for yet.
    Idle,
    /// An image has been asked of the surface.
    Acquiring,
    /// The commands of the frame are being recorded.
    Recording,
    /// The commands have been handed to the queue.
    Submitted,
    /// The image has been handed back for presentation: the frame is done.
    Presented,
    /// The surface must be configured again: the frame is given up.
    Lost,
    /// Nothing more can be rendered: the process is to end.
    Fatal,
}

/// What has happened to a frame.
#[derive(Clone, Copy, Debug, PartialEq, Eq, Structural)]
pub enum FrameEvent {
    /// A redraw was asked for.
    Begin,
    /// The surface gave an image.
    Acquired,
    /// The surface gave no image.
    AcquireFailed(SurfaceError),
    /// The commands are recorded.
    Recorded,
    /// The queue has taken the commands.
    Submitted,
}

/// What is to be done next for a frame.
#[derive(Clone, Copy, Debug, PartialEq, Eq, Structural)]
pub enum FrameAction {
    /// Ask the surface for its next image.
    Acquire,
    /// Record the commands of the frame against the image.
    Record,
    /// Finish the commands and hand them to the queue.
    Submit,
    /// Hand the image back for presentation.
    Present,
    /// Configure the surface again with the size it has; draw nothing and
    /// present nothing.
    Reconfigure,
    /// End the process.
    Terminate,
    /// Report the error, give the frame up and go on with the next.
    Skip(SurfaceError),
}

impl FrameState {
    /// The state that follows `self` on `event` and what is to be done, or
    /// `None` where the event has no place in the state.
    pub open spec fn next(self, event: FrameEvent) -> Option<(FrameState, FrameAction)> {
        match (self, event) {
            (FrameState::Idle, FrameEvent::Begin) => Some(
                (FrameState::Acquiring, FrameAction::Acquire),
            ),
            (FrameState::Acquiring, FrameEvent::Acquired) => Some(
                (FrameState::Recording, FrameAction::Record),
            ),
            (FrameState::Acquiring, FrameEvent::AcquireFailed(error)) => Some(
                match error {
                    SurfaceError::Lost => (FrameState::Lost, FrameAction::Reconfigure),
                    SurfaceError::Outdated => (FrameState::Lost, FrameAction::Reconfigure),
                    SurfaceError::OutOfMemory => (FrameState::Fatal, FrameAction::Terminate),
                    SurfaceError::Timeout => (FrameState::Idle, FrameAction::Skip(error)),
                },
            ),
            (FrameState::Recording, FrameEvent::Recorded) => Some(
                (FrameState::Submitted, FrameAction::Submit),
            ),
            (FrameState::Submitted, FrameEvent::Submitted) => Some(
                (FrameState::Presented, FrameAction::Present),
            ),
            _ => None,
        }
    }

    /// A frame that is presented, lost or fatal has ended: no event takes it
    /// any further.
    pub proof fn lemma_ended(self, event: FrameEvent)
        requires
            self == FrameState::Presented || self == FrameState::Lost || self == FrameState::Fatal,
        ensures
            self.next(event) is None,
    {
    }

    /// Nothing is recorded but against an image that the surface gave,
    /// nothing is submitted but what was recorded, and nothing is presented
    /// but what was submitted.
    pub proof fn lemma_in_order(self, event: FrameEvent)
        ensures
            self.next(event) matches Some((_, FrameAction::Record)) ==> self
                == FrameState::Acquiring && event == FrameEvent::Acquired,
            self.next(event) matches Some((_, FrameAction::Submit)) ==> self
                == FrameState::Recording,
            self.next(event) matches Some((_, FrameAction::Present)) ==> self
                == FrameState::Submitted,
    {
    }

    /// A frame for which the surface gave no image is given up: what is to
    /// be done is neither to record nor to submit nor to present, and from
    /// the state that follows, nothing but the beginning of another frame can
    /// go on. The process ends exactly where memory has run out, and the
    /// surface is configured again exactly where it is lost or outdated.
    pub proof fn lemma_acquire_failed(error: SurfaceError, event: FrameEvent)
        ensures
            FrameState::Acquiring.next(FrameEvent::AcquireFailed(error)) matches Some(
                (after, action),
            ) && {
                &&& action != FrameAction::Record
                &&& action != FrameAction::Submit
                &&& action != FrameAction::Present
                &&& action == FrameAction::Terminate <==> error == SurfaceError::OutOfMemory
                &&& action == FrameAction::Reconfigure <==> error == SurfaceError::Lost || error
                    == SurfaceError::Outdated
                &&& after.next(event) is Some ==> after == FrameState::Idle && event
                    == FrameEvent::Begin
            },
    {
    }

    /// Takes the frame one step on: the state that follows and what is to be
    /// done, or `None` where the event has no place in the state.
    pub fn step(self, event: FrameEvent) -> (next: Option<(FrameState, FrameAction)>)
        ensures
            next == self.next(event),
    {
        match (self, event) {
            (FrameState::Idle, FrameEvent::Begin) => Some(
                (FrameState::Acquiring, FrameAction::Acquire),
            ),
            (FrameState::Acquiring, FrameEvent::Acquired) => Some(
                (FrameState::Recording, FrameAction::Record),
            ),
            (FrameState::Acquiring, FrameEvent::AcquireFailed(error)) => Some(
                match error {
                    SurfaceError::Lost | SurfaceError::Outdated => (
                        FrameState::Lost,
                        FrameAction::Reconfigure,
                    ),
                    SurfaceError::OutOfMemory => (FrameState::Fatal, FrameAction::Terminate),
                    SurfaceError::Timeout => (FrameState::Idle, FrameAction::Skip(error)),
                },
            ),
            (FrameState::Recording, FrameEvent::Recorded) => Some(
                (FrameState::Submitted, FrameAction::Submit),
            ),
            (FrameState::Submitted, FrameEvent::Submitted) => Some(
                (FrameState::Presented, FrameAction::Present),
            ),
            _ => None,
        }
    }
}

} // verus!
